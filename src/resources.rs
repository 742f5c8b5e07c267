use vstd::prelude::*;
use crate::geometry::POS_LIMIT;

verus! {

/// Most enemies alive at once.
pub const ENEMY_MAX_COUNT: u32 = 3;

/// Least time between the player's death and the next spawn, in milliseconds.
pub const PLAYER_RESPONSE_DELAY_MS: u64 = 2000;

/// Size of the window, in sub-pixels.
#[derive(Clone, Copy, Debug, PartialEq, Eq, Structural)]
pub struct WinSize {
    pub width: i64,
    pub height: i64,
}

impl WinSize {
    pub open spec fn wf(&self) -> bool {
        0 < self.width <= POS_LIMIT && 0 < self.height <= POS_LIMIT
    }
}

/// Count of live enemies.
#[derive(Clone, Copy, Debug, PartialEq, Eq, Structural)]
pub struct ActiveEnemies(pub u32);

impl ActiveEnemies {
    pub open spec fn wf(&self) -> bool {
        self.0 <= ENEMY_MAX_COUNT
    }
}

/// Whether a player ship is alive, and when it was last shot down
/// (milliseconds since start; zero when it has not been, or has respawned).
#[derive(Clone, Copy, Debug, PartialEq, Eq, Structural)]
pub struct PlayerState {
    pub on: bool,
    pub last_shot: u64,
}

impl Default for PlayerState {
    fn default() -> (r: PlayerState)
        ensures
            !r.on,
            r.last_shot == 0,
    {
        PlayerState { on: false, last_shot: 0 }
    }
}

impl PlayerState {
    /// The player ship was shot down at `time`.
    pub fn shot(&mut self, time: u64)
        ensures
            *final(self) == (PlayerState { on: false, last_shot: time }),
    {
        self.last_shot = time;
        self.on = false;
    }

    /// A player ship has just appeared.
    pub fn spawned(&mut self)
        ensures
            *final(self) == (PlayerState { on: true, last_shot: 0 }),
    {
        self.last_shot = 0;
        self.on = true;
    }

    /// A new player ship may appear at `now`.
    pub open spec fn spawn_allowed(self, now: u64) -> bool {
        !self.on && (self.last_shot == 0 || now > self.last_shot + PLAYER_RESPONSE_DELAY_MS)
    }

    pub fn can_spawn(&self, now: u64) -> (r: bool)
        ensures
            r == self.spawn_allowed(now),
    {
        !self.on && (self.last_shot == 0 || (now > self.last_shot && now - self.last_shot > PLAYER_RESPONSE_DELAY_MS))
    }
}

} // verus!

verus! {

/// After the player is shot down at a time `t` past the start, no ship
/// reappears until more than the response delay has gone by.
pub proof fn lemma_respawn_waits_for_delay(state: PlayerState, t: u64, now: u64)
    requires
        state == (PlayerState { on: false, last_shot: t }),
        t > 0,
    ensures
        state.spawn_allowed(now) ==> now > t + PLAYER_RESPONSE_DELAY_MS,
{
}

} // verus!
