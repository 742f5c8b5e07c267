use vstd::prelude::*;
use crate::entities::{Enemy, ExplosionToSpawn, Laser, Player};
use crate::game::{Game, SpriteSizes};
use crate::geometry::{boxes_overlap, collide, FULL_SCALE};
use crate::resources::PlayerState;
use crate::seqs::{count_true, keep, keep_alive};

verus! {

/// Where a pass over laser/enemy pairs stands: the enemy count, which lasers
/// and enemies are marked for removal, and the explosions requested so far.
pub struct HitScan {
    pub count: int,
    pub dead_lasers: Seq<bool>,
    pub dead_enemies: Seq<bool>,
    pub requests: Seq<ExplosionToSpawn>,
}

/// The scan before any pair is looked at.
pub open spec fn scan_start(count: u32, n_lasers: nat, n_enemies: nat) -> HitScan {
    HitScan {
        count: count as int,
        dead_lasers: Seq::new(n_lasers, |k: int| false),
        dead_enemies: Seq::new(n_enemies, |k: int| false),
        requests: Seq::empty(),
    }
}

/// A player laser's box overlaps an enemy's.
pub open spec fn laser_hits_enemy(sizes: SpriteSizes, l: Laser, e: Enemy) -> bool {
    boxes_overlap(l.pos, sizes.laser, l.scale as int, e.pos, sizes.enemy, FULL_SCALE as int)
}

/// An enemy laser's box overlaps the player's.
pub open spec fn laser_hits_player(sizes: SpriteSizes, l: Laser, p: Player) -> bool {
    boxes_overlap(p.pos, sizes.player, FULL_SCALE as int, l.pos, sizes.laser, l.scale as int)
}

/// One pair: on overlap, while the count is positive, both are marked, the
/// count drops by one and an explosion is requested at the enemy.
pub open spec fn hit_cell(sizes: SpriteSizes, l: Laser, li: int, e: Enemy, ej: int, st: HitScan) -> HitScan {
    if laser_hits_enemy(sizes, l, e) && st.count > 0 {
        HitScan {
            count: st.count - 1,
            dead_lasers: st.dead_lasers.update(li, true),
            dead_enemies: st.dead_enemies.update(ej, true),
            requests: st.requests.push(ExplosionToSpawn(e.pos)),
        }
    } else {
        st
    }
}

/// Laser `li` against the first `j` enemies, in order.
pub open spec fn hit_row(sizes: SpriteSizes, l: Laser, li: int, enemies: Seq<Enemy>, j: int, st: HitScan) -> HitScan
    decreases j,
{
    if j <= 0 {
        st
    } else {
        hit_cell(sizes, l, li, enemies[j - 1], j - 1, hit_row(sizes, l, li, enemies, j - 1, st))
    }
}

/// The first `i` lasers, each against every enemy, in order.
pub open spec fn hit_sweep(sizes: SpriteSizes, lasers: Seq<Laser>, enemies: Seq<Enemy>, i: int, st: HitScan) -> HitScan
    decreases i,
{
    if i <= 0 {
        st
    } else {
        hit_row(sizes, lasers[i - 1], i - 1, enemies, enemies.len() as int, hit_sweep(sizes, lasers, enemies, i - 1, st))
    }
}

/// Which enemy lasers overlap the player.
pub open spec fn player_hit_flags(sizes: SpriteSizes, lasers: Seq<Laser>, p: Player) -> Seq<bool> {
    Seq::new(lasers.len(), |i: int| laser_hits_player(sizes, lasers[i], p))
}

/// `n` explosion requests at `pos`.
pub open spec fn requests_at(pos: crate::geometry::Pos, n: nat) -> Seq<ExplosionToSpawn> {
    Seq::new(n, |k: int| ExplosionToSpawn(pos))
}

proof fn lemma_row(sizes: SpriteSizes, l: Laser, li: int, enemies: Seq<Enemy>, j: int, st: HitScan)
    requires
        0 <= j <= enemies.len(),
        0 <= li < st.dead_lasers.len(),
        st.dead_enemies.len() == enemies.len(),
        st.count >= 0,
    ensures
        ({
            let r = hit_row(sizes, l, li, enemies, j, st);
            &&& 0 <= r.count <= st.count
            &&& r.requests.len() == st.requests.len() + (st.count - r.count)
            &&& r.dead_lasers.len() == st.dead_lasers.len()
            &&& r.dead_enemies.len() == st.dead_enemies.len()
            &&& forall|k: int| 0 <= k < st.dead_lasers.len() && #[trigger] st.dead_lasers[k] ==> r.dead_lasers[k]
            &&& forall|k: int| 0 <= k < st.dead_enemies.len() && #[trigger] st.dead_enemies[k] ==> r.dead_enemies[k]
            &&& r.count > 0 ==> forall|k: int|
                0 <= k < j && #[trigger] laser_hits_enemy(sizes, l, enemies[k]) ==> r.dead_lasers[li] && r.dead_enemies[k]
            &&& forall|k: int| 0 <= k < st.dead_enemies.len() && #[trigger] r.dead_enemies[k] && !st.dead_enemies[k]
                ==> laser_hits_enemy(sizes, l, enemies[k])
            &&& forall|m: int| 0 <= m < st.dead_lasers.len() && m != li ==> #[trigger] r.dead_lasers[m] == st.dead_lasers[m]
            &&& r.dead_lasers[li] && !st.dead_lasers[li] ==> exists|k: int|
                0 <= k < j && #[trigger] laser_hits_enemy(sizes, l, enemies[k])
        }),
    decreases j,
{
    if j > 0 {
        lemma_row(sizes, l, li, enemies, j - 1, st);
        let p = hit_row(sizes, l, li, enemies, j - 1, st);
        let r = hit_row(sizes, l, li, enemies, j, st);
        if r.dead_lasers[li] && !st.dead_lasers[li] {
            if p.dead_lasers[li] {
                let k = choose|k: int| 0 <= k < j - 1 && #[trigger] laser_hits_enemy(sizes, l, enemies[k]);
                assert(0 <= k < j && laser_hits_enemy(sizes, l, enemies[k]));
            } else {
                assert(laser_hits_enemy(sizes, l, enemies[j - 1]));
            }
        }
    }
}

proof fn lemma_sweep(sizes: SpriteSizes, lasers: Seq<Laser>, enemies: Seq<Enemy>, i: int, st: HitScan)
    requires
        0 <= i <= lasers.len(),
        st.dead_lasers.len() == lasers.len(),
        st.dead_enemies.len() == enemies.len(),
        st.count >= 0,
    ensures
        ({
            let r = hit_sweep(sizes, lasers, enemies, i, st);
            &&& 0 <= r.count <= st.count
            &&& r.requests.len() == st.requests.len() + (st.count - r.count)
            &&& r.dead_lasers.len() == st.dead_lasers.len()
            &&& r.dead_enemies.len() == st.dead_enemies.len()
            &&& r.count > 0 ==> forall|a: int, k: int|
                0 <= a < i && 0 <= k < enemies.len() && #[trigger] laser_hits_enemy(sizes, lasers[a], enemies[k])
                    ==> r.dead_lasers[a] && r.dead_enemies[k]
            &&& forall|k: int| 0 <= k < enemies.len() && #[trigger] r.dead_enemies[k] && !st.dead_enemies[k]
                ==> exists|a: int| 0 <= a < i && #[trigger] laser_hits_enemy(sizes, lasers[a], enemies[k])
            &&& forall|a: int| 0 <= a < lasers.len() && #[trigger] r.dead_lasers[a] && !st.dead_lasers[a]
                ==> a < i && exists|k: int| 0 <= k < enemies.len() && #[trigger] laser_hits_enemy(sizes, lasers[a], enemies[k])
        }),
    decreases i,
{
    if i > 0 {
        lemma_sweep(sizes, lasers, enemies, i - 1, st);
        let s = hit_sweep(sizes, lasers, enemies, i - 1, st);
        lemma_row(sizes, lasers[i - 1], i - 1, enemies, enemies.len() as int, s);
        let r = hit_sweep(sizes, lasers, enemies, i, st);
        assert(r == hit_row(sizes, lasers[i - 1], i - 1, enemies, enemies.len() as int, s));
        if r.count > 0 {
            assert forall|a: int, k: int|
                0 <= a < i && 0 <= k < enemies.len() && #[trigger] laser_hits_enemy(sizes, lasers[a], enemies[k])
                    implies r.dead_lasers[a] && r.dead_enemies[k] by {
                if a < i - 1 {
                    assert(s.dead_lasers[a] && s.dead_enemies[k]);
                }
            }
        }
        assert forall|k: int| 0 <= k < enemies.len() && #[trigger] r.dead_enemies[k] && !st.dead_enemies[k]
            implies exists|a: int| 0 <= a < i && #[trigger] laser_hits_enemy(sizes, lasers[a], enemies[k]) by {
            if s.dead_enemies[k] {
                let a = choose|a: int| 0 <= a < i - 1 && #[trigger] laser_hits_enemy(sizes, lasers[a], enemies[k]);
                assert(0 <= a < i && laser_hits_enemy(sizes, lasers[a], enemies[k]));
            } else {
                assert(laser_hits_enemy(sizes, lasers[i - 1], enemies[k]));
            }
        }
        assert forall|a: int| 0 <= a < lasers.len() && #[trigger] r.dead_lasers[a] && !st.dead_lasers[a]
            implies a < i && exists|k: int| 0 <= k < enemies.len() && #[trigger] laser_hits_enemy(sizes, lasers[a], enemies[k]) by {
            if a != i - 1 {
                assert(s.dead_lasers[a]);
            }
        }
    }
}

/// In a pass of player lasers over enemies, each hit takes one from the enemy
/// count and adds exactly one explosion request; and while the count is not
/// used up, the laser and the enemy of every overlapping pair are both marked
/// for removal in that same pass. Nothing is marked without an overlap.
pub proof fn lemma_hits_remove_both(sizes: SpriteSizes, lasers: Seq<Laser>, enemies: Seq<Enemy>, count: u32)
    ensures
        ({
            let r = hit_sweep(sizes, lasers, enemies, lasers.len() as int, scan_start(count, lasers.len(), enemies.len()));
            &&& 0 <= r.count <= count
            &&& r.requests.len() == count - r.count
            &&& r.count > 0 ==> forall|a: int, k: int|
                0 <= a < lasers.len() && 0 <= k < enemies.len() && #[trigger] laser_hits_enemy(sizes, lasers[a], enemies[k])
                    ==> r.dead_lasers[a] && r.dead_enemies[k]
            &&& forall|k: int| 0 <= k < enemies.len() && #[trigger] r.dead_enemies[k]
                ==> exists|a: int| 0 <= a < lasers.len() && #[trigger] laser_hits_enemy(sizes, lasers[a], enemies[k])
            &&& forall|a: int| 0 <= a < lasers.len() && #[trigger] r.dead_lasers[a]
                ==> exists|k: int| 0 <= k < enemies.len() && #[trigger] laser_hits_enemy(sizes, lasers[a], enemies[k])
        }),
{
    lemma_sweep(sizes, lasers, enemies, lasers.len() as int, scan_start(count, lasers.len(), enemies.len()));
}

fn false_flags(n: usize) -> (r: Vec<bool>)
    ensures
        r@ == Seq::new(n as nat, |k: int| false),
{
    let mut r: Vec<bool> = Vec::new();
    let mut i: usize = 0;
    while i < n
        invariant
            i <= n,
            r@ == Seq::new(i as nat, |k: int| false),
        decreases n - i,
    {
        r.push(false);
        i += 1;
        assert(r@ =~= Seq::new(i as nat, |k: int| false));
    }
    r
}

impl Game {
    /// Tests every player laser against every enemy. Each overlapping pair met
    /// while the enemy count is positive removes the enemy and the laser,
    /// lowers the count by one and requests an explosion at the enemy. Removal
    /// takes effect after the pass, so one laser may hit several enemies.
    pub fn laser_hit_enemy(&mut self)
        requires
            old(self).wf(),
        ensures
            final(self).wf(),
            ({
                let r = hit_sweep(
                    old(self).sizes,
                    old(self).player_lasers@,
                    old(self).enemies@,
                    old(self).player_lasers@.len() as int,
                    scan_start(old(self).active_enemies.0, old(self).player_lasers@.len(), old(self).enemies@.len()),
                );
                &&& final(self).active_enemies.0 == r.count
                &&& final(self).player_lasers@ == keep(old(self).player_lasers@, r.dead_lasers)
                &&& final(self).enemies@ == keep(old(self).enemies@, r.dead_enemies)
                &&& final(self).explosion_requests@ == old(self).explosion_requests@ + r.requests
            }),
            final(self).win == old(self).win,
            final(self).sizes == old(self).sizes,
            final(self).player_state == old(self).player_state,
            final(self).player == old(self).player,
            final(self).enemy_lasers@ == old(self).enemy_lasers@,
            final(self).explosions@ == old(self).explosions@,
    {
        let ghost lasers = self.player_lasers@;
        let ghost enemies = self.enemies@;
        let ghost start = scan_start(self.active_enemies.0, lasers.len(), enemies.len());
        let nl = self.player_lasers.len();
        let ne = self.enemies.len();
        let mut dead_l = false_flags(nl);
        let mut dead_e = false_flags(ne);
        let mut count = self.active_enemies.0;
        let mut reqs: Vec<ExplosionToSpawn> = Vec::new();
        let mut i: usize = 0;
        while i < nl
            invariant
                self.wf(),
                self.player_lasers@ == lasers,
                self.enemies@ == enemies,
                nl == lasers.len(),
                ne == enemies.len(),
                i <= nl,
                count <= old(self).active_enemies.0,
                ({
                    let st = hit_sweep(self.sizes, lasers, enemies, i as int, start);
                    &&& count == st.count
                    &&& dead_l@ == st.dead_lasers
                    &&& dead_e@ == st.dead_enemies
                    &&& reqs@ == st.requests
                }),
                dead_l@.len() == nl,
                dead_e@.len() == ne,
            decreases nl - i,
        {
            let ghost before = hit_sweep(self.sizes, lasers, enemies, i as int, start);
            let l = self.player_lasers[i];
            assert(lasers[i as int].wf());
            let mut j: usize = 0;
            while j < ne
                invariant
                    self.wf(),
                    self.player_lasers@ == lasers,
                    self.enemies@ == enemies,
                    nl == lasers.len(),
                    ne == enemies.len(),
                    i < nl,
                    j <= ne,
                    l == lasers[i as int],
                    l.wf(),
                    count <= old(self).active_enemies.0,
                    ({
                        let st = hit_row(self.sizes, l, i as int, enemies, j as int, before);
                        &&& count == st.count
                        &&& dead_l@ == st.dead_lasers
                        &&& dead_e@ == st.dead_enemies
                        &&& reqs@ == st.requests
                    }),
                    dead_l@.len() == nl,
                    dead_e@.len() == ne,
                decreases ne - j,
            {
                let e = self.enemies[j];
                assert(enemies[j as int].wf());
                if collide(l.pos, self.sizes.laser, l.scale, e.pos, self.sizes.enemy, FULL_SCALE) && count > 0 {
                    dead_e.set(j, true);
                    count = count - 1;
                    dead_l.set(i, true);
                    reqs.push(ExplosionToSpawn(e.pos));
                }
                j += 1;
            }
            i += 1;
        }
        self.active_enemies.0 = count;
        let kept_lasers = keep_alive(&self.player_lasers, &dead_l);
        let kept_enemies = keep_alive(&self.enemies, &dead_e);
        self.player_lasers = kept_lasers;
        self.enemies = kept_enemies;
        self.explosion_requests.append(&mut reqs);
    }

    /// Tests every enemy laser against the player ship. Each overlapping laser
    /// marks the player shot down at `now`, removes the laser and requests an
    /// explosion at the player; the ship is removed after the pass.
    pub fn laser_hit_player(&mut self, now: u64)
        requires
            old(self).wf(),
        ensures
            final(self).wf(),
            match old(self).player {
                Some(p) => {
                    let flags = player_hit_flags(old(self).sizes, old(self).enemy_lasers@, p);
                    let n = count_true(flags);
                    &&& final(self).enemy_lasers@ == keep(old(self).enemy_lasers@, flags)
                    &&& final(self).explosion_requests@ == old(self).explosion_requests@ + requests_at(p.pos, n)
                    &&& n > 0 ==> final(self).player.is_none()
                        && final(self).player_state == (PlayerState { on: false, last_shot: now })
                    &&& n == 0 ==> final(self).player == old(self).player
                        && final(self).player_state == old(self).player_state
                },
                None => {
                    &&& final(self).enemy_lasers@ == old(self).enemy_lasers@
                    &&& final(self).explosion_requests@ == old(self).explosion_requests@
                    &&& final(self).player == old(self).player
                    &&& final(self).player_state == old(self).player_state
                },
            },
            final(self).win == old(self).win,
            final(self).sizes == old(self).sizes,
            final(self).active_enemies == old(self).active_enemies,
            final(self).enemies@ == old(self).enemies@,
            final(self).player_lasers@ == old(self).player_lasers@,
            final(self).explosions@ == old(self).explosions@,
    {
        if let Some(p) = self.player {
            let ghost lasers = self.enemy_lasers@;
            let ghost flags = player_hit_flags(self.sizes, lasers, p);
            let mut dead: Vec<bool> = Vec::new();
            let mut reqs: Vec<ExplosionToSpawn> = Vec::new();
            let mut hit = false;
            let mut i: usize = 0;
            while i < self.enemy_lasers.len()
                invariant
                    self.wf(),
                    self.player == Some(p),
                    self.enemy_lasers@ == lasers,
                    self.sizes == old(self).sizes,
                    flags == player_hit_flags(self.sizes, lasers, p),
                    i <= lasers.len(),
                    dead@ == flags.subrange(0, i as int),
                    reqs@ == requests_at(p.pos, count_true(flags.subrange(0, i as int))),
                    hit == (count_true(flags.subrange(0, i as int)) > 0),
                decreases lasers.len() - i,
            {
                let l = self.enemy_lasers[i];
                assert(lasers[i as int].wf());
                assert(flags.subrange(0, i + 1).drop_last() =~= flags.subrange(0, i as int));
                let ghost n = count_true(flags.subrange(0, i as int));
                if collide(p.pos, self.sizes.player, FULL_SCALE, l.pos, self.sizes.laser, l.scale) {
                    dead.push(true);
                    reqs.push(ExplosionToSpawn(p.pos));
                    hit = true;
                    assert(reqs@ =~= requests_at(p.pos, n + 1));
                } else {
                    dead.push(false);
                }
                i += 1;
                assert(dead@ =~= flags.subrange(0, i as int));
            }
            assert(flags.subrange(0, lasers.len() as int) =~= flags);
            if hit {
                self.player_state.shot(now);
                self.player = None;
            }
            let kept = keep_alive(&self.enemy_lasers, &dead);
            self.enemy_lasers = kept;
            self.explosion_requests.append(&mut reqs);
        }
    }
}

} // verus!
