use vstd::prelude::*;
use rand::Rng;
use crate::entities::{Enemy, Laser};
use crate::game::Game;
use crate::geometry::{Pos, Speed, DEFAULT_SPEED, SUBPIXELS_PER_PIXEL};
use crate::resources::ENEMY_MAX_COUNT;

verus! {

/// Enemies appear at least this many pixels inside each window edge.
pub const ENEMY_SPAWN_MARGIN: i64 = 100;

/// Enemy lasers start this many pixels below the enemy.
pub const ENEMY_LASER_DROP: i64 = 15;

/// Scale of an enemy laser, in thousandths of the laser sprite.
pub const ENEMY_LASER_SCALE: i64 = 20;

/// Half the range over which an enemy may appear along an axis of `size`.
pub open spec fn spawn_span(size: i64) -> int {
    size / 2 - ENEMY_SPAWN_MARGIN * SUBPIXELS_PER_PIXEL
}

/// The laser an enemy fires.
pub open spec fn enemy_laser(e: Enemy) -> Laser {
    Laser {
        pos: Pos { x: e.pos.x, y: (e.pos.y - ENEMY_LASER_DROP * SUBPIXELS_PER_PIXEL) as i64 },
        scale: ENEMY_LASER_SCALE,
        speed: Speed(DEFAULT_SPEED),
    }
}

/// A laser after one tick of downward travel.
pub open spec fn lowered(l: Laser) -> Laser {
    Laser { pos: Pos { x: l.pos.x, y: (l.pos.y - l.speed.step_spec()) as i64 }, scale: l.scale, speed: l.speed }
}

/// Enemy lasers after one tick: each moves down, and those below `-height` are gone.
pub open spec fn enemy_lasers_after(s: Seq<Laser>, height: int) -> Seq<Laser>
    decreases s.len(),
{
    if s.len() == 0 {
        Seq::empty()
    } else {
        let rest = enemy_lasers_after(s.drop_last(), height);
        let m = lowered(s.last());
        if m.pos.y < -height { rest } else { rest.push(m) }
    }
}

/// Relies on rand's `Rng::gen_range` over `thread_rng`: a value drawn from
/// the half-open range `lo..hi` (it panics on an empty range).
#[verifier::external_body]
fn random_in(lo: i64, hi: i64) -> (r: i64)
    requires
        lo < hi,
    ensures
        lo <= r < hi,
{
    rand::thread_rng().gen_range(lo..hi)
}

impl Game {
    /// Adds an enemy at `(x, y)` unless the cap of live enemies is reached.
    pub fn enemy_spawn_at(&mut self, x: i64, y: i64)
        requires
            old(self).wf(),
            -spawn_span(old(self).win.width) <= x < spawn_span(old(self).win.width),
            -spawn_span(old(self).win.height) <= y < spawn_span(old(self).win.height),
        ensures
            final(self).wf(),
            old(self).active_enemies.0 < ENEMY_MAX_COUNT ==> final(self).active_enemies.0 == old(self).active_enemies.0 + 1
                && final(self).enemies@ == old(self).enemies@.push(
                Enemy { pos: Pos { x, y }, speed: Speed(DEFAULT_SPEED) },
            ),
            old(self).active_enemies.0 >= ENEMY_MAX_COUNT ==> final(self).active_enemies == old(self).active_enemies
                && final(self).enemies@ == old(self).enemies@,
            final(self).active_enemies.0 <= ENEMY_MAX_COUNT,
            final(self).win == old(self).win,
            final(self).sizes == old(self).sizes,
            final(self).player_state == old(self).player_state,
            final(self).player == old(self).player,
            final(self).player_lasers@ == old(self).player_lasers@,
            final(self).enemy_lasers@ == old(self).enemy_lasers@,
            final(self).explosion_requests@ == old(self).explosion_requests@,
            final(self).explosions@ == old(self).explosions@,
    {
        if self.active_enemies.0 < ENEMY_MAX_COUNT {
            self.enemies.push(Enemy { pos: Pos { x, y }, speed: Speed::default() });
            self.active_enemies.0 = self.active_enemies.0 + 1;
        }
    }

    /// Adds an enemy at a random place inside the window margins unless the
    /// cap of live enemies is reached.
    pub fn enemy_spawn(&mut self)
        requires
            old(self).wf(),
            spawn_span(old(self).win.width) > 0,
            spawn_span(old(self).win.height) > 0,
        ensures
            final(self).wf(),
            old(self).active_enemies.0 < ENEMY_MAX_COUNT ==> final(self).active_enemies.0 == old(self).active_enemies.0 + 1
                && final(self).enemies@.len() == old(self).enemies@.len() + 1
                && final(self).enemies@.drop_last() == old(self).enemies@
                && final(self).enemies@.last().speed == Speed(DEFAULT_SPEED)
                && -spawn_span(old(self).win.width) <= final(self).enemies@.last().pos.x < spawn_span(old(self).win.width)
                && -spawn_span(old(self).win.height) <= final(self).enemies@.last().pos.y < spawn_span(old(self).win.height),
            old(self).active_enemies.0 >= ENEMY_MAX_COUNT ==> final(self).active_enemies == old(self).active_enemies
                && final(self).enemies@ == old(self).enemies@,
            final(self).active_enemies.0 <= ENEMY_MAX_COUNT,
            final(self).win == old(self).win,
            final(self).sizes == old(self).sizes,
            final(self).player_state == old(self).player_state,
            final(self).player == old(self).player,
            final(self).player_lasers@ == old(self).player_lasers@,
            final(self).enemy_lasers@ == old(self).enemy_lasers@,
            final(self).explosion_requests@ == old(self).explosion_requests@,
            final(self).explosions@ == old(self).explosions@,
    {
        if self.active_enemies.0 < ENEMY_MAX_COUNT {
            let width_span = self.win.width / 2 - ENEMY_SPAWN_MARGIN * SUBPIXELS_PER_PIXEL;
            let height_span = self.win.height / 2 - ENEMY_SPAWN_MARGIN * SUBPIXELS_PER_PIXEL;
            let x = random_in(-width_span, width_span);
            let y = random_in(-height_span, height_span);
            self.enemy_spawn_at(x, y);
            assert(self.enemies@.drop_last() =~= old(self).enemies@);
        }
    }

    /// Every live enemy fires one laser downward.
    pub fn enemy_fire(&mut self)
        requires
            old(self).wf(),
        ensures
            final(self).wf(),
            final(self).enemy_lasers@ == old(self).enemy_lasers@ + old(self).enemies@.map_values(|e: Enemy| enemy_laser(e)),
            final(self).win == old(self).win,
            final(self).sizes == old(self).sizes,
            final(self).active_enemies == old(self).active_enemies,
            final(self).player_state == old(self).player_state,
            final(self).player == old(self).player,
            final(self).enemies@ == old(self).enemies@,
            final(self).player_lasers@ == old(self).player_lasers@,
            final(self).explosion_requests@ == old(self).explosion_requests@,
            final(self).explosions@ == old(self).explosions@,
    {
        let mut i: usize = 0;
        while i < self.enemies.len()
            invariant
                self.wf(),
                i <= self.enemies.len(),
                self.win == old(self).win,
                self.sizes == old(self).sizes,
                self.active_enemies == old(self).active_enemies,
                self.player_state == old(self).player_state,
                self.player == old(self).player,
                self.enemies@ == old(self).enemies@,
                self.player_lasers@ == old(self).player_lasers@,
                self.explosion_requests@ == old(self).explosion_requests@,
                self.explosions@ == old(self).explosions@,
                self.enemy_lasers@ == old(self).enemy_lasers@ + self.enemies@.subrange(0, i as int).map_values(
                    |e: Enemy| enemy_laser(e),
                ),
            decreases self.enemies.len() - i,
        {
            let e = self.enemies[i];
            assert(self.enemies@[i as int].wf());
            let l = Laser {
                pos: Pos { x: e.pos.x, y: e.pos.y - ENEMY_LASER_DROP * SUBPIXELS_PER_PIXEL },
                scale: ENEMY_LASER_SCALE,
                speed: Speed::default(),
            };
            self.enemy_lasers.push(l);
            assert(self.enemies@.subrange(0, i + 1).map_values(|e: Enemy| enemy_laser(e)) =~= self.enemies@.subrange(
                0,
                i as int,
            ).map_values(|e: Enemy| enemy_laser(e)).push(l));
            i += 1;
        }
        assert(self.enemies@.subrange(0, self.enemies.len() as int) =~= self.enemies@);
    }

    /// Moves every enemy laser down one tick and removes those below minus
    /// the window's height.
    pub fn enemy_laser_movement(&mut self)
        requires
            old(self).wf(),
        ensures
            final(self).wf(),
            final(self).enemy_lasers@ == enemy_lasers_after(old(self).enemy_lasers@, old(self).win.height as int),
            final(self).win == old(self).win,
            final(self).sizes == old(self).sizes,
            final(self).active_enemies == old(self).active_enemies,
            final(self).player_state == old(self).player_state,
            final(self).player == old(self).player,
            final(self).enemies@ == old(self).enemies@,
            final(self).player_lasers@ == old(self).player_lasers@,
            final(self).explosion_requests@ == old(self).explosion_requests@,
            final(self).explosions@ == old(self).explosions@,
    {
        let height = self.win.height;
        let mut out: Vec<Laser> = Vec::new();
        let mut i: usize = 0;
        while i < self.enemy_lasers.len()
            invariant
                self.wf(),
                self.win.height == height,
                i <= self.enemy_lasers.len(),
                out@ == enemy_lasers_after(self.enemy_lasers@.subrange(0, i as int), height as int),
                forall|k: int| 0 <= k < out@.len() ==> (#[trigger] out@[k]).wf(),
            decreases self.enemy_lasers.len() - i,
        {
            let l = self.enemy_lasers[i];
            assert(self.enemy_lasers@[i as int].wf());
            assert(self.enemy_lasers@.subrange(0, i + 1).drop_last() =~= self.enemy_lasers@.subrange(0, i as int));
            let y = l.pos.y - l.speed.step();
            if y >= -height {
                out.push(Laser { pos: Pos { x: l.pos.x, y }, scale: l.scale, speed: l.speed });
            }
            i += 1;
        }
        assert(self.enemy_lasers@.subrange(0, self.enemy_lasers.len() as int) =~= self.enemy_lasers@);
        self.enemy_lasers = out;
    }
}

} // verus!
