use vstd::prelude::*;
use crate::geometry::{coord_ok, laser_coord_ok, Pos, Speed, FULL_SCALE};

verus! {

/// Frames of the explosion sprite sheet (three columns by three rows).
pub const EXPLOSION_FRAMES: u32 = 9;

/// Time each explosion frame is shown, in milliseconds.
pub const EXPLOSION_FRAME_MS: u64 = 50;

/// The player may start a new volley (re-armed when the fire key is released).
#[derive(Clone, Copy, Debug, PartialEq, Eq, Structural)]
pub struct PlayerReadyFire(pub bool);

#[derive(Clone, Copy, Debug, PartialEq, Eq, Structural)]
pub struct Player {
    pub pos: Pos,
    pub speed: Speed,
    pub ready_fire: PlayerReadyFire,
}

impl Player {
    pub open spec fn wf(&self) -> bool {
        coord_ok(self.pos.x as int) && coord_ok(self.pos.y as int)
    }
}

#[derive(Clone, Copy, Debug, PartialEq, Eq, Structural)]
pub struct Enemy {
    pub pos: Pos,
    pub speed: Speed,
}

impl Enemy {
    pub open spec fn wf(&self) -> bool {
        coord_ok(self.pos.x as int) && coord_ok(self.pos.y as int)
    }
}

/// A laser; `scale` is in thousandths of the laser sprite.
#[derive(Clone, Copy, Debug, PartialEq, Eq, Structural)]
pub struct Laser {
    pub pos: Pos,
    pub scale: i64,
    pub speed: Speed,
}

impl Laser {
    pub open spec fn wf(&self) -> bool {
        &&& laser_coord_ok(self.pos.x as int)
        &&& laser_coord_ok(self.pos.y as int)
        &&& 0 <= self.scale <= FULL_SCALE
    }
}

/// A request to show an explosion at a position.
#[derive(Clone, Copy, Debug, PartialEq, Eq, Structural)]
pub struct ExplosionToSpawn(pub Pos);

/// A running explosion: the sheet frame shown and the time spent on it.
#[derive(Clone, Copy, Debug, PartialEq, Eq, Structural)]
pub struct Explosion {
    pub pos: Pos,
    pub index: u32,
    pub elapsed_ms: u64,
}

impl Explosion {
    pub open spec fn wf(&self) -> bool {
        self.index < EXPLOSION_FRAMES && self.elapsed_ms < EXPLOSION_FRAME_MS
    }
}

} // verus!
