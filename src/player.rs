use vstd::prelude::*;
use crate::entities::{Laser, Player, PlayerReadyFire};
use crate::game::Game;
use crate::geometry::{clamp_coord, coord_ok, Pos, Speed, DEFAULT_SPEED, POS_LIMIT, SUBPIXELS_PER_PIXEL};
use crate::resources::PlayerState;

verus! {

/// A new player ship appears this many pixels above the bottom edge.
pub const PLAYER_BOTTOM_MARGIN: i64 = 25;

/// Player lasers start this many pixels to each side of the ship.
pub const LASER_SIDE_OFFSET: i64 = 10;

/// Player lasers start this many pixels ahead of the ship.
pub const LASER_FORWARD_OFFSET: i64 = 10;

/// Scale of a player laser, in thousandths of the laser sprite.
pub const PLAYER_LASER_SCALE: i64 = 50;

/// Where a new player ship appears: centred, just above the bottom edge.
pub open spec fn player_spawn_pos(height: i64) -> Pos {
    Pos { x: 0, y: (-(height / 2) + PLAYER_BOTTOM_MARGIN * SUBPIXELS_PER_PIXEL) as i64 }
}

/// A player ship as it appears.
pub open spec fn new_player(height: i64) -> Player {
    Player { pos: player_spawn_pos(height), speed: Speed(DEFAULT_SPEED), ready_fire: PlayerReadyFire(true) }
}

/// Horizontal direction: left wins over right.
pub open spec fn dir_x(left: bool, right: bool) -> int {
    if left { -1 } else if right { 1 } else { 0 }
}

/// Vertical direction: up wins over down.
pub open spec fn dir_y(up: bool, down: bool) -> int {
    if up { 1 } else if down { -1 } else { 0 }
}

/// The ship after one tick of movement in the given directions.
pub open spec fn moved_player(p: Player, dx: int, dy: int) -> Player {
    Player {
        pos: Pos {
            x: clamp_coord(p.pos.x + dx * p.speed.step_spec()) as i64,
            y: clamp_coord(p.pos.y + dy * p.speed.step_spec()) as i64,
        },
        speed: p.speed,
        ready_fire: p.ready_fire,
    }
}

/// One frame of the fire trigger: whether a volley goes out, and the ready flag after.
pub open spec fn fire_step(ready: bool, pressed: bool, just_released: bool) -> (bool, bool) {
    let fired = ready && pressed;
    (fired, if just_released { true } else if fired { false } else { ready })
}

/// A player laser at an offset from the ship.
pub open spec fn player_laser(p: Player, side: int) -> Laser {
    Laser {
        pos: Pos {
            x: (p.pos.x + side * LASER_SIDE_OFFSET * SUBPIXELS_PER_PIXEL) as i64,
            y: (p.pos.y + LASER_FORWARD_OFFSET * SUBPIXELS_PER_PIXEL) as i64,
        },
        scale: PLAYER_LASER_SCALE,
        speed: Speed(DEFAULT_SPEED),
    }
}

/// The two lasers of one volley, right one first.
pub open spec fn volley(p: Player) -> Seq<Laser> {
    seq![player_laser(p, 1), player_laser(p, -1)]
}

/// A laser after one tick of upward travel.
pub open spec fn raised(l: Laser) -> Laser {
    Laser { pos: Pos { x: l.pos.x, y: (l.pos.y + l.speed.step_spec()) as i64 }, scale: l.scale, speed: l.speed }
}

/// Player lasers after one tick: each moves up, and those above `height` are gone.
pub open spec fn player_lasers_after(s: Seq<Laser>, height: int) -> Seq<Laser>
    decreases s.len(),
{
    if s.len() == 0 {
        Seq::empty()
    } else {
        let rest = player_lasers_after(s.drop_last(), height);
        let m = raised(s.last());
        if m.pos.y > height { rest } else { rest.push(m) }
    }
}

/// Volleys fired over `n` frames with the fire key held and never released.
pub open spec fn volleys_while_held(ready: bool, n: nat) -> nat
    decreases n,
{
    if n == 0 {
        0
    } else {
        let (fired, next) = fire_step(ready, true, false);
        (if fired { 1nat } else { 0nat }) + volleys_while_held(next, (n - 1) as nat)
    }
}

/// Holding the fire key over any number of frames fires once at most: once
/// when ready, never when already spent.
pub proof fn lemma_fire_is_edge_triggered(ready: bool, n: nat)
    requires
        n >= 1,
    ensures
        volleys_while_held(ready, n) == if ready { 1nat } else { 0nat },
    decreases n,
{
    let (fired, next) = fire_step(ready, true, false);
    assert(!next);
    if n > 1 {
        lemma_fire_is_edge_triggered(false, (n - 1) as nat);
    } else {
        assert(volleys_while_held(next, 0) == 0);
    }
}

impl Game {
    /// Spawns the player ship when none is alive and the response delay since
    /// its last death is over.
    pub fn player_spawn(&mut self, now: u64)
        requires
            old(self).wf(),
        ensures
            final(self).wf(),
            old(self).player_state.spawn_allowed(now) ==> final(self).player == Some(new_player(old(self).win.height))
                && final(self).player_state == (PlayerState { on: true, last_shot: 0 }),
            !old(self).player_state.spawn_allowed(now) ==> final(self).player == old(self).player
                && final(self).player_state == old(self).player_state,
            final(self).win == old(self).win,
            final(self).sizes == old(self).sizes,
            final(self).active_enemies == old(self).active_enemies,
            final(self).enemies@ == old(self).enemies@,
            final(self).player_lasers@ == old(self).player_lasers@,
            final(self).enemy_lasers@ == old(self).enemy_lasers@,
            final(self).explosion_requests@ == old(self).explosion_requests@,
            final(self).explosions@ == old(self).explosions@,
    {
        if self.player_state.can_spawn(now) {
            let bottom = -(self.win.height / 2);
            self.player = Some(Player {
                pos: Pos { x: 0, y: bottom + PLAYER_BOTTOM_MARGIN * SUBPIXELS_PER_PIXEL },
                speed: Speed::default(),
                ready_fire: PlayerReadyFire(true),
            });
            self.player_state.spawned();
        }
    }

    /// Moves the player ship one tick along the pressed arrow keys; of two
    /// opposite keys the first checked (left, up) wins. Coordinates are held
    /// within `POS_LIMIT`.
    pub fn player_movement(&mut self, left: bool, right: bool, up: bool, down: bool)
        requires
            old(self).wf(),
        ensures
            final(self).wf(),
            final(self).player == match old(self).player {
                Some(p) => Some(moved_player(p, dir_x(left, right), dir_y(up, down))),
                None => None,
            },
            final(self).win == old(self).win,
            final(self).sizes == old(self).sizes,
            final(self).active_enemies == old(self).active_enemies,
            final(self).player_state == old(self).player_state,
            final(self).enemies@ == old(self).enemies@,
            final(self).player_lasers@ == old(self).player_lasers@,
            final(self).enemy_lasers@ == old(self).enemy_lasers@,
            final(self).explosion_requests@ == old(self).explosion_requests@,
            final(self).explosions@ == old(self).explosions@,
    {
        if let Some(p) = self.player {
            let dx: i64 = if left { -1 } else if right { 1 } else { 0 };
            let dy: i64 = if up { 1 } else if down { -1 } else { 0 };
            let step = p.speed.step();
            let x = clamp(p.pos.x + dx * step);
            let y = clamp(p.pos.y + dy * step);
            self.player = Some(Player { pos: Pos { x, y }, speed: p.speed, ready_fire: p.ready_fire });
        }
    }

    /// Fires a volley of two lasers when the ship is ready and the fire key is
    /// held, clearing the ready flag; releasing the key sets it again.
    pub fn player_fire(&mut self, pressed: bool, just_released: bool)
        requires
            old(self).wf(),
        ensures
            final(self).wf(),
            match old(self).player {
                Some(p) => {
                    let (fired, ready) = fire_step(p.ready_fire.0, pressed, just_released);
                    &&& final(self).player == Some(Player { pos: p.pos, speed: p.speed, ready_fire: PlayerReadyFire(ready) })
                    &&& final(self).player_lasers@ == if fired {
                        old(self).player_lasers@ + volley(p)
                    } else {
                        old(self).player_lasers@
                    }
                },
                None => final(self).player.is_none() && final(self).player_lasers@ == old(self).player_lasers@,
            },
            final(self).win == old(self).win,
            final(self).sizes == old(self).sizes,
            final(self).active_enemies == old(self).active_enemies,
            final(self).player_state == old(self).player_state,
            final(self).enemies@ == old(self).enemies@,
            final(self).enemy_lasers@ == old(self).enemy_lasers@,
            final(self).explosion_requests@ == old(self).explosion_requests@,
            final(self).explosions@ == old(self).explosions@,
    {
        if let Some(p) = self.player {
            let mut ready = p.ready_fire.0;
            let fired = ready && pressed;
            if fired {
                let side = LASER_SIDE_OFFSET * SUBPIXELS_PER_PIXEL;
                let y = p.pos.y + LASER_FORWARD_OFFSET * SUBPIXELS_PER_PIXEL;
                self.player_lasers.push(
                    Laser { pos: Pos { x: p.pos.x + side, y }, scale: PLAYER_LASER_SCALE, speed: Speed::default() },
                );
                self.player_lasers.push(
                    Laser { pos: Pos { x: p.pos.x - side, y }, scale: PLAYER_LASER_SCALE, speed: Speed::default() },
                );
                ready = false;
            }
            if just_released {
                ready = true;
            }
            self.player = Some(Player { pos: p.pos, speed: p.speed, ready_fire: PlayerReadyFire(ready) });
            proof {
                if fired {
                    assert(self.player_lasers@ =~= old(self).player_lasers@ + volley(p));
                }
            }
        }
    }

    /// Moves every player laser up one tick and removes those above the
    /// window's height.
    pub fn laser_movement(&mut self)
        requires
            old(self).wf(),
        ensures
            final(self).wf(),
            final(self).player_lasers@ == player_lasers_after(old(self).player_lasers@, old(self).win.height as int),
            final(self).win == old(self).win,
            final(self).sizes == old(self).sizes,
            final(self).active_enemies == old(self).active_enemies,
            final(self).player_state == old(self).player_state,
            final(self).player == old(self).player,
            final(self).enemies@ == old(self).enemies@,
            final(self).enemy_lasers@ == old(self).enemy_lasers@,
            final(self).explosion_requests@ == old(self).explosion_requests@,
            final(self).explosions@ == old(self).explosions@,
    {
        let height = self.win.height;
        let mut out: Vec<Laser> = Vec::new();
        let mut i: usize = 0;
        while i < self.player_lasers.len()
            invariant
                self.wf(),
                self.win.height == height,
                i <= self.player_lasers.len(),
                out@ == player_lasers_after(self.player_lasers@.subrange(0, i as int), height as int),
                forall|k: int| 0 <= k < out@.len() ==> (#[trigger] out@[k]).wf(),
            decreases self.player_lasers.len() - i,
        {
            let l = self.player_lasers[i];
            assert(self.player_lasers@[i as int].wf());
            assert(self.player_lasers@.subrange(0, i + 1).drop_last() =~= self.player_lasers@.subrange(0, i as int));
            let y = l.pos.y + l.speed.step();
            if y <= height {
                out.push(Laser { pos: Pos { x: l.pos.x, y }, scale: l.scale, speed: l.speed });
            }
            i += 1;
        }
        assert(self.player_lasers@.subrange(0, self.player_lasers.len() as int) =~= self.player_lasers@);
        self.player_lasers = out;
    }
}

/// `v` held within the range of ship coordinates.
fn clamp(v: i64) -> (r: i64)
    ensures
        r == clamp_coord(v as int),
{
    if v < -POS_LIMIT {
        -POS_LIMIT
    } else if v > POS_LIMIT {
        POS_LIMIT
    } else {
        v
    }
}

} // verus!
