use vstd::prelude::*;
use crate::entities::{Enemy, Explosion, ExplosionToSpawn, Laser, Player};
use crate::geometry::Extent;
use crate::resources::{ActiveEnemies, PlayerState, WinSize};

verus! {

/// Unscaled sprite sizes, in sub-pixels.
#[derive(Clone, Copy, Debug, PartialEq, Eq, Structural)]
pub struct SpriteSizes {
    pub player: Extent,
    pub enemy: Extent,
    pub laser: Extent,
}

impl SpriteSizes {
    pub open spec fn wf(&self) -> bool {
        self.player.wf() && self.enemy.wf() && self.laser.wf()
    }
}

/// All state of a running game: the shared resources and every live entity,
/// kept by kind.
pub struct Game {
    pub win: WinSize,
    pub sizes: SpriteSizes,
    pub active_enemies: ActiveEnemies,
    pub player_state: PlayerState,
    pub player: Option<Player>,
    pub enemies: Vec<Enemy>,
    pub player_lasers: Vec<Laser>,
    pub enemy_lasers: Vec<Laser>,
    pub explosion_requests: Vec<ExplosionToSpawn>,
    pub explosions: Vec<Explosion>,
}

impl Game {
    /// The invariant every update keeps.
    pub open spec fn wf(&self) -> bool {
        &&& self.win.wf()
        &&& self.sizes.wf()
        &&& self.active_enemies.wf()
        &&& self.player_state.on == self.player.is_some()
        &&& (self.player matches Some(p) ==> p.wf())
        &&& forall|i: int| 0 <= i < self.enemies@.len() ==> (#[trigger] self.enemies@[i]).wf()
        &&& forall|i: int| 0 <= i < self.player_lasers@.len() ==> (#[trigger] self.player_lasers@[i]).wf()
        &&& forall|i: int| 0 <= i < self.enemy_lasers@.len() ==> (#[trigger] self.enemy_lasers@[i]).wf()
        &&& forall|i: int| 0 <= i < self.explosions@.len() ==> (#[trigger] self.explosions@[i]).wf()
    }

    /// A game before anything has appeared.
    pub fn new(win: WinSize, sizes: SpriteSizes) -> (r: Game)
        requires
            win.wf(),
            sizes.wf(),
        ensures
            r.wf(),
            r.win == win,
            r.sizes == sizes,
            r.active_enemies.0 == 0,
            r.player_state == (PlayerState { on: false, last_shot: 0 }),
            r.player.is_none(),
            r.enemies@.len() == 0,
            r.player_lasers@.len() == 0,
            r.enemy_lasers@.len() == 0,
            r.explosion_requests@.len() == 0,
            r.explosions@.len() == 0,
    {
        Game {
            win,
            sizes,
            active_enemies: ActiveEnemies(0),
            player_state: PlayerState::default(),
            player: None,
            enemies: Vec::new(),
            player_lasers: Vec::new(),
            enemy_lasers: Vec::new(),
            explosion_requests: Vec::new(),
            explosions: Vec::new(),
        }
    }
}

} // verus!
