use shooter::entities::{Explosion, ExplosionToSpawn, Laser, PlayerReadyFire};
use shooter::game::{Game, SpriteSizes};
use shooter::geometry::{collide, Extent, Pos, Speed};
use shooter::resources::{PlayerState, WinSize};

const SUB: i64 = 60;

fn px(v: i64) -> i64 {
    v * SUB
}

fn new_game() -> Game {
    let win = WinSize { width: px(800), height: px(600) };
    let sizes = SpriteSizes {
        player: Extent { w: px(100), h: px(75) },
        enemy: Extent { w: px(90), h: px(90) },
        laser: Extent { w: px(100), h: px(400) },
    };
    Game::new(win, sizes)
}

fn laser_at(x: i64, y: i64, scale: i64) -> Laser {
    Laser { pos: Pos { x, y }, scale, speed: Speed::default() }
}

#[test]
fn laser_hit_enemy_removes_both_and_requests_explosion() {
    let mut g = new_game();
    g.enemy_spawn_at(px(50), px(50));
    assert_eq!(g.active_enemies.0, 1);
    g.player_lasers.push(laser_at(px(50), px(50), 50));
    g.laser_hit_enemy();
    assert!(g.enemies.is_empty());
    assert!(g.player_lasers.is_empty());
    assert_eq!(g.active_enemies.0, 0);
    assert_eq!(g.explosion_requests, vec![ExplosionToSpawn(Pos { x: px(50), y: px(50) })]);
}

#[test]
fn laser_missing_enemy_leaves_both() {
    let mut g = new_game();
    g.enemy_spawn_at(px(50), px(50));
    g.player_lasers.push(laser_at(px(-200), px(50), 50));
    g.laser_hit_enemy();
    assert_eq!(g.enemies.len(), 1);
    assert_eq!(g.player_lasers.len(), 1);
    assert_eq!(g.active_enemies.0, 1);
    assert!(g.explosion_requests.is_empty());
}

#[test]
fn enemy_hit_needs_positive_count() {
    let mut g = new_game();
    g.enemy_spawn_at(px(50), px(50));
    g.active_enemies.0 = 0;
    g.player_lasers.push(laser_at(px(50), px(50), 50));
    g.laser_hit_enemy();
    assert_eq!(g.enemies.len(), 1);
    assert_eq!(g.player_lasers.len(), 1);
    assert!(g.explosion_requests.is_empty());
}

#[test]
fn one_laser_can_hit_two_enemies_in_one_pass() {
    let mut g = new_game();
    g.enemy_spawn_at(px(0), px(0));
    g.enemy_spawn_at(px(10), px(0));
    g.enemy_spawn_at(px(200), px(0));
    g.player_lasers.push(laser_at(px(5), px(0), 50));
    g.laser_hit_enemy();
    assert_eq!(g.enemies.len(), 1);
    assert_eq!(g.enemies[0].pos, Pos { x: px(200), y: 0 });
    assert!(g.player_lasers.is_empty());
    assert_eq!(g.active_enemies.0, 1);
    assert_eq!(
        g.explosion_requests,
        vec![ExplosionToSpawn(Pos { x: 0, y: 0 }), ExplosionToSpawn(Pos { x: px(10), y: 0 })]
    );
}

#[test]
fn player_laser_leaves_window_after_seventy_one_ticks() {
    let mut g = new_game();
    g.player_spawn(0);
    let mut p = g.player.unwrap();
    p.pos.y = 0;
    g.player = Some(p);
    g.player_fire(true, false);
    assert_eq!(g.player_lasers.len(), 2);
    assert_eq!(g.player_lasers[0].pos, Pos { x: px(10), y: px(10) });
    assert_eq!(g.player_lasers[1].pos, Pos { x: px(-10), y: px(10) });
    for _ in 0..70 {
        g.laser_movement();
    }
    assert_eq!(g.player_lasers.len(), 2);
    assert_eq!(g.player_lasers[0].pos.y, px(10) + 70 * 500);
    g.laser_movement();
    assert!(g.player_lasers.is_empty());
}

#[test]
fn opposite_keys_first_checked_wins() {
    let mut g = new_game();
    g.player_spawn(0);
    let start = g.player.unwrap().pos;
    g.player_movement(true, true, false, false);
    assert_eq!(g.player.unwrap().pos, Pos { x: start.x - 500, y: start.y });
    g.player_movement(false, false, true, true);
    assert_eq!(g.player.unwrap().pos, Pos { x: start.x - 500, y: start.y + 500 });
    g.player_movement(false, true, false, true);
    assert_eq!(g.player.unwrap().pos, Pos { x: start.x, y: start.y });
}

#[test]
fn player_movement_is_held_within_coordinate_range() {
    let mut g = new_game();
    g.player_spawn(0);
    let mut p = g.player.unwrap();
    p.pos.x = shooter::geometry::POS_LIMIT - 100;
    g.player = Some(p);
    g.player_movement(false, true, false, false);
    assert_eq!(g.player.unwrap().pos.x, shooter::geometry::POS_LIMIT);
}

#[test]
fn holding_fire_fires_once_until_release() {
    let mut g = new_game();
    g.player_spawn(0);
    for _ in 0..5 {
        g.player_fire(true, false);
    }
    assert_eq!(g.player_lasers.len(), 2);
    assert_eq!(g.player.unwrap().ready_fire, PlayerReadyFire(false));
    g.player_fire(false, true);
    assert_eq!(g.player.unwrap().ready_fire, PlayerReadyFire(true));
    g.player_fire(true, false);
    assert_eq!(g.player_lasers.len(), 4);
}

#[test]
fn player_spawns_at_bottom_centre() {
    let mut g = new_game();
    g.player_spawn(0);
    let p = g.player.unwrap();
    assert_eq!(p.pos, Pos { x: 0, y: px(-300 + 25) });
    assert_eq!(p.speed, Speed(500));
    assert_eq!(g.player_state, PlayerState { on: true, last_shot: 0 });
    g.player_spawn(100);
    assert_eq!(g.player.unwrap(), p);
}

#[test]
fn respawn_waits_for_response_delay() {
    let mut g = new_game();
    g.player_spawn(0);
    let p = g.player.unwrap();
    g.enemy_lasers.push(laser_at(p.pos.x, p.pos.y, 20));
    g.laser_hit_player(1000);
    assert!(g.player.is_none());
    assert_eq!(g.player_state, PlayerState { on: false, last_shot: 1000 });
    assert_eq!(g.explosion_requests, vec![ExplosionToSpawn(p.pos)]);
    assert!(g.enemy_lasers.is_empty());
    g.player_spawn(2500);
    assert!(g.player.is_none());
    g.player_spawn(3000);
    assert!(g.player.is_none());
    g.player_spawn(3001);
    assert!(g.player.is_some());
    assert_eq!(g.player_state, PlayerState { on: true, last_shot: 0 });
}

#[test]
fn two_lasers_on_player_give_two_requests() {
    let mut g = new_game();
    g.player_spawn(0);
    let p = g.player.unwrap();
    g.enemy_lasers.push(laser_at(p.pos.x, p.pos.y, 20));
    g.enemy_lasers.push(laser_at(px(300), px(200), 20));
    g.enemy_lasers.push(laser_at(p.pos.x + px(5), p.pos.y, 20));
    g.laser_hit_player(700);
    assert!(g.player.is_none());
    assert_eq!(g.enemy_lasers, vec![laser_at(px(300), px(200), 20)]);
    assert_eq!(g.explosion_requests, vec![ExplosionToSpawn(p.pos), ExplosionToSpawn(p.pos)]);
}

#[test]
fn enemy_count_never_passes_cap() {
    let mut g = new_game();
    for k in 0..5 {
        g.enemy_spawn_at(px(10 * k), px(20));
    }
    assert_eq!(g.active_enemies.0, 3);
    assert_eq!(g.enemies.len(), 3);
    g.enemy_spawn();
    assert_eq!(g.enemies.len(), 3);
}

#[test]
fn random_enemy_spawn_stays_inside_margins() {
    let mut xs = Vec::new();
    for _ in 0..20 {
        let mut g = new_game();
        g.enemy_spawn();
        g.enemy_spawn();
        assert_eq!(g.active_enemies.0, 2);
        for e in &g.enemies {
            assert!(e.pos.x >= px(-300) && e.pos.x < px(300));
            assert!(e.pos.y >= px(-200) && e.pos.y < px(200));
            xs.push(e.pos.x);
        }
    }
    assert!(xs.iter().any(|x| *x != px(-300)));
}

#[test]
fn every_enemy_fires_one_laser() {
    let mut g = new_game();
    g.enemy_spawn_at(px(10), px(100));
    g.enemy_spawn_at(px(-50), px(0));
    g.enemy_fire();
    assert_eq!(g.enemy_lasers, vec![laser_at(px(10), px(85), 20), laser_at(px(-50), px(-15), 20)]);
    g.enemy_fire();
    assert_eq!(g.enemy_lasers.len(), 4);
}

#[test]
fn enemy_laser_moves_down_and_leaves_below_window() {
    let mut g = new_game();
    g.enemy_lasers.push(laser_at(0, px(-600) + 400, 20));
    g.enemy_lasers.push(laser_at(0, 0, 20));
    g.enemy_laser_movement();
    assert_eq!(g.enemy_lasers, vec![laser_at(0, -500, 20)]);
}

#[test]
fn explosion_shows_nine_frames_then_goes() {
    let mut g = new_game();
    g.explosion_requests.push(ExplosionToSpawn(Pos { x: 7, y: 9 }));
    g.explosion_to_spawn();
    assert!(g.explosion_requests.is_empty());
    assert_eq!(g.explosions, vec![Explosion { pos: Pos { x: 7, y: 9 }, index: 0, elapsed_ms: 0 }]);
    for k in 1..9u32 {
        g.animate_explosion(50);
        assert_eq!(g.explosions.len(), 1);
        assert_eq!(g.explosions[0].index, k);
    }
    g.animate_explosion(49);
    assert_eq!(g.explosions[0].index, 8);
    assert_eq!(g.explosions[0].elapsed_ms, 49);
    g.animate_explosion(1);
    assert!(g.explosions.is_empty());
}

#[test]
fn explosion_timer_keeps_remainder_and_advances_one_frame() {
    let mut g = new_game();
    g.explosion_requests.push(ExplosionToSpawn(Pos { x: 0, y: 0 }));
    g.explosion_to_spawn();
    g.animate_explosion(30);
    assert_eq!(g.explosions[0].index, 0);
    g.animate_explosion(30);
    assert_eq!(g.explosions[0].index, 1);
    assert_eq!(g.explosions[0].elapsed_ms, 10);
    g.animate_explosion(175);
    assert_eq!(g.explosions[0].index, 2);
    assert_eq!(g.explosions[0].elapsed_ms, 35);
}

#[test]
fn touching_boxes_do_not_collide() {
    let size = Extent { w: 100, h: 100 };
    let a = Pos { x: 0, y: 0 };
    assert!(!collide(a, size, 1000, Pos { x: 100, y: 0 }, size, 1000));
    assert!(collide(a, size, 1000, Pos { x: 99, y: 99 }, size, 1000));
    assert!(!collide(a, size, 500, Pos { x: 75, y: 0 }, size, 1000));
    assert!(collide(a, size, 500, Pos { x: 74, y: 0 }, size, 1000));
}

#[test]
fn default_speed_covers_five_hundred_subpixels_per_tick() {
    let s = Speed::default();
    assert_eq!(s, Speed(500));
    assert_eq!(s.step(), 500);
    assert_eq!(Speed(90).step(), 90);
}

#[test]
fn new_game_is_empty() {
    let g = new_game();
    assert_eq!(g.active_enemies.0, 0);
    assert_eq!(g.player_state, PlayerState::default());
    assert!(g.player.is_none());
    assert!(g.enemies.is_empty() && g.player_lasers.is_empty() && g.enemy_lasers.is_empty());
}
