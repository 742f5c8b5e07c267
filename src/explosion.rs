use vstd::prelude::*;
use vstd::arithmetic::div_mod::{lemma_add_mod_noop, lemma_small_mod};
use crate::entities::{Explosion, ExplosionToSpawn, EXPLOSION_FRAMES, EXPLOSION_FRAME_MS};
use crate::game::Game;

verus! {

/// The explosion a request turns into: first frame, timer at zero.
pub open spec fn started(r: ExplosionToSpawn) -> Explosion {
    Explosion { pos: r.0, index: 0, elapsed_ms: 0 }
}

/// A frame is completed when the timer reaches the frame time in this tick.
pub open spec fn frame_done(x: Explosion, delta_ms: u64) -> bool {
    x.elapsed_ms + delta_ms >= EXPLOSION_FRAME_MS
}

/// An explosion after `delta_ms`: the timer runs on (keeping the remainder
/// past a completed frame) and a completed frame moves to the next index.
pub open spec fn ticked(x: Explosion, delta_ms: u64) -> Explosion {
    if frame_done(x, delta_ms) {
        Explosion {
            pos: x.pos,
            index: (x.index + 1) as u32,
            elapsed_ms: ((x.elapsed_ms + delta_ms) % (EXPLOSION_FRAME_MS as int)) as u64,
        }
    } else {
        Explosion { pos: x.pos, index: x.index, elapsed_ms: (x.elapsed_ms + delta_ms) as u64 }
    }
}

/// Explosions after `delta_ms`: each ticks, and those past the last frame are gone.
pub open spec fn explosions_after(s: Seq<Explosion>, delta_ms: u64) -> Seq<Explosion>
    decreases s.len(),
{
    if s.len() == 0 {
        Seq::empty()
    } else {
        let rest = explosions_after(s.drop_last(), delta_ms);
        let m = ticked(s.last(), delta_ms);
        if m.index == EXPLOSION_FRAMES { rest } else { rest.push(m) }
    }
}

/// An explosion shows its frames in order: a tick keeps the index or moves it
/// on by exactly one, and the explosion is removed exactly when the last
/// frame is completed.
pub proof fn lemma_explosion_frame_order(x: Explosion, delta_ms: u64)
    requires
        x.wf(),
    ensures
        frame_done(x, delta_ms) ==> ticked(x, delta_ms).index == x.index + 1,
        !frame_done(x, delta_ms) ==> ticked(x, delta_ms).index == x.index,
        (ticked(x, delta_ms).index == EXPLOSION_FRAMES) == (x.index == EXPLOSION_FRAMES - 1 && frame_done(x, delta_ms)),
        ticked(x, delta_ms).index < EXPLOSION_FRAMES ==> ticked(x, delta_ms).wf(),
{
    if frame_done(x, delta_ms) {
        assert((x.elapsed_ms + delta_ms) % (EXPLOSION_FRAME_MS as int) < EXPLOSION_FRAME_MS) by (nonlinear_arith);
    }
}

impl Game {
    /// Turns every pending explosion request into a running explosion and
    /// clears the requests.
    pub fn explosion_to_spawn(&mut self)
        requires
            old(self).wf(),
        ensures
            final(self).wf(),
            final(self).explosions@ == old(self).explosions@ + old(self).explosion_requests@.map_values(
                |r: ExplosionToSpawn| started(r),
            ),
            final(self).explosion_requests@.len() == 0,
            final(self).win == old(self).win,
            final(self).sizes == old(self).sizes,
            final(self).active_enemies == old(self).active_enemies,
            final(self).player_state == old(self).player_state,
            final(self).player == old(self).player,
            final(self).enemies@ == old(self).enemies@,
            final(self).player_lasers@ == old(self).player_lasers@,
            final(self).enemy_lasers@ == old(self).enemy_lasers@,
    {
        let mut i: usize = 0;
        while i < self.explosion_requests.len()
            invariant
                self.wf(),
                i <= self.explosion_requests.len(),
                self.win == old(self).win,
                self.sizes == old(self).sizes,
                self.active_enemies == old(self).active_enemies,
                self.player_state == old(self).player_state,
                self.player == old(self).player,
                self.enemies@ == old(self).enemies@,
                self.player_lasers@ == old(self).player_lasers@,
                self.enemy_lasers@ == old(self).enemy_lasers@,
                self.explosion_requests@ == old(self).explosion_requests@,
                self.explosions@ == old(self).explosions@ + self.explosion_requests@.subrange(0, i as int).map_values(
                    |r: ExplosionToSpawn| started(r),
                ),
            decreases self.explosion_requests.len() - i,
        {
            let r = self.explosion_requests[i];
            let x = Explosion { pos: r.0, index: 0, elapsed_ms: 0 };
            self.explosions.push(x);
            assert(self.explosion_requests@.subrange(0, i + 1).map_values(|r: ExplosionToSpawn| started(r))
                =~= self.explosion_requests@.subrange(0, i as int).map_values(|r: ExplosionToSpawn| started(r)).push(x));
            i += 1;
        }
        assert(self.explosion_requests@.subrange(0, self.explosion_requests.len() as int) =~= self.explosion_requests@);
        self.explosion_requests.clear();
    }

    /// Runs every explosion's frame timer by `delta_ms`; a completed frame
    /// moves to the next sheet index, and an explosion whose index reaches
    /// the sheet's frame count is removed.
    pub fn animate_explosion(&mut self, delta_ms: u64)
        requires
            old(self).wf(),
        ensures
            final(self).wf(),
            final(self).explosions@ == explosions_after(old(self).explosions@, delta_ms),
            final(self).win == old(self).win,
            final(self).sizes == old(self).sizes,
            final(self).active_enemies == old(self).active_enemies,
            final(self).player_state == old(self).player_state,
            final(self).player == old(self).player,
            final(self).enemies@ == old(self).enemies@,
            final(self).player_lasers@ == old(self).player_lasers@,
            final(self).enemy_lasers@ == old(self).enemy_lasers@,
            final(self).explosion_requests@ == old(self).explosion_requests@,
    {
        let mut out: Vec<Explosion> = Vec::new();
        let mut i: usize = 0;
        while i < self.explosions.len()
            invariant
                self.wf(),
                i <= self.explosions.len(),
                out@ == explosions_after(self.explosions@.subrange(0, i as int), delta_ms),
                forall|k: int| 0 <= k < out@.len() ==> (#[trigger] out@[k]).wf(),
            decreases self.explosions.len() - i,
        {
            let x = self.explosions[i];
            assert(self.explosions@[i as int].wf());
            assert(self.explosions@.subrange(0, i + 1).drop_last() =~= self.explosions@.subrange(0, i as int));
            proof {
                lemma_explosion_frame_order(x, delta_ms);
            }
            let m = if delta_ms >= EXPLOSION_FRAME_MS - x.elapsed_ms {
                proof {
                    lemma_add_mod_noop(x.elapsed_ms as int, delta_ms as int, EXPLOSION_FRAME_MS as int);
                    lemma_small_mod(x.elapsed_ms as nat, EXPLOSION_FRAME_MS as nat);
                    assert(delta_ms % EXPLOSION_FRAME_MS < EXPLOSION_FRAME_MS);
                }
                Explosion {
                    pos: x.pos,
                    index: x.index + 1,
                    elapsed_ms: (x.elapsed_ms + delta_ms % EXPLOSION_FRAME_MS) % EXPLOSION_FRAME_MS,
                }
            } else {
                Explosion { pos: x.pos, index: x.index, elapsed_ms: x.elapsed_ms + delta_ms }
            };
            if m.index < EXPLOSION_FRAMES {
                out.push(m);
            }
            i += 1;
        }
        assert(self.explosions@.subrange(0, self.explosions.len() as int) =~= self.explosions@);
        self.explosions = out;
    }
}

} // verus!
