use maze_game::enemy::spawn_enemy;
use maze_game::geometry::{Aabb, PIXEL};
use maze_game::player::{Input, PlayerFacingDirection};
use maze_game::walls::WallBundle;
use maze_game::world::World;
use rand::rngs::StdRng;
use rand::SeedableRng;

const TICK: u32 = 15_625;

fn keys(left: bool, right: bool, up: bool, down: bool, attack: bool) -> Input {
    Input { left, right, up, down, attack }
}

fn idle() -> Input {
    keys(false, false, false, false, false)
}

#[test]
fn new_world_holds_the_level() {
    let world = World::new(Vec::new());
    assert!(world.player.alive);
    assert_eq!(world.player.body, Aabb::new(20 * PIXEL, 10 * PIXEL, 5 * PIXEL, 5 * PIXEL));
    assert_eq!(world.enemies.len(), 5);
    assert_eq!(world.coins.len(), 5);
    assert!(world.attacks.is_empty());
    assert_eq!(world.score.0, 0);
}

#[test]
fn driving_right_under_the_wall_never_collides() {
    let wall = WallBundle::new(0, 65 * PIXEL, 200 * PIXEL, 65 * PIXEL).wall;
    let mut world = World::new(vec![wall]);
    let mut rng = StdRng::seed_from_u64(1);
    for k in 1..=30i64 {
        let report = world.tick(&keys(false, true, false, false, false), TICK, &mut rng);
        assert_eq!(report.wall_collisions, 0);
        assert_eq!(world.player.body.center_x, 20 * PIXEL + k * 3_125_000);
        assert_eq!(world.player.body.center_y, 10 * PIXEL);
    }
}

#[test]
fn collision_event_fires_every_tick_while_overlapping() {
    let wall = WallBundle::new(0, 65 * PIXEL, 200 * PIXEL, 65 * PIXEL).wall;
    let mut world = World::new(vec![wall]);
    let mut rng = StdRng::seed_from_u64(2);
    let mut events = Vec::new();
    for _ in 0..20 {
        let report = world.tick(&keys(false, false, true, false, false), TICK, &mut rng);
        events.push(report.wall_collisions);
    }
    // 3.125 px a tick: the player's top reaches the wall's underside at y = 65
    // on the sixteenth tick, and is pushed back each tick after that.
    let mut expected = vec![0usize; 15];
    expected.extend(vec![1usize; 5]);
    assert_eq!(events, expected);
    assert_eq!(world.player.body.center_y, 56_875_000);
    assert!(world.player.alive);
}

#[test]
fn score_never_drops_and_counts_each_coin_once() {
    let mut world = World::new(Vec::new());
    world.enemies.clear();
    world.player.body = Aabb::new(70 * PIXEL, 80 * PIXEL, 5 * PIXEL, 5 * PIXEL);
    let mut rng = StdRng::seed_from_u64(3);
    let mut last = world.score.0;
    for _ in 0..40 {
        let before_coins = world.coins.len();
        let report = world.tick(&keys(false, true, false, false, false), TICK, &mut rng);
        assert!(world.score.0 >= last);
        assert_eq!(world.score.0 - last, before_coins - world.coins.len());
        assert_eq!(report.coins_collected, before_coins - world.coins.len());
        assert_eq!(world.score.0 + world.coins.len(), 5);
        last = world.score.0;
    }
    assert_eq!(world.score.0, 1);
    assert_eq!(world.coins.len(), 4);
}

#[test]
fn death_is_terminal() {
    let mut world = World::new(Vec::new());
    world.enemies = vec![spawn_enemy(27 * PIXEL, 10 * PIXEL)];
    let mut rng = StdRng::seed_from_u64(4);
    let report = world.tick(&idle(), TICK, &mut rng);
    assert!(report.player_died);
    assert!(!world.player.alive);
    let body = world.player.body;
    let facing = world.player.player_facing_direction;
    for _ in 0..50 {
        let report = world.tick(&keys(true, false, true, false, true), TICK, &mut rng);
        assert!(!report.player_died);
        assert!(!report.won);
        assert!(!world.player.alive);
        assert_eq!(world.player.body, body);
        assert_eq!(world.player.player_facing_direction, facing);
        assert!(world.attacks.is_empty());
    }
}

#[test]
fn win_does_not_stop_the_player() {
    let mut world = World::new(Vec::new());
    world.enemies.clear();
    world.player.body = Aabb::new(585 * PIXEL, 590 * PIXEL, 5 * PIXEL, 5 * PIXEL);
    let mut rng = StdRng::seed_from_u64(5);
    let report = world.tick(&idle(), TICK, &mut rng);
    assert!(report.won);
    assert!(world.has_won);
    assert!(world.player.alive);
    let report = world.tick(&keys(false, false, true, false, false), TICK, &mut rng);
    // The win is signalled once; the player keeps moving.
    assert!(!report.won);
    assert!(world.has_won);
    assert!(world.player.alive);
    assert_eq!(world.player.body.center_y, 590 * PIXEL + 3_125_000);
    assert_eq!(world.player.player_facing_direction, PlayerFacingDirection::Up);
}

#[test]
fn attack_in_tick_removes_enemy_and_expires() {
    let mut world = World::new(Vec::new());
    world.enemies = vec![spawn_enemy(200 * PIXEL, -20 * PIXEL)];
    world.player.body = Aabb::new(200 * PIXEL, 20 * PIXEL, 5 * PIXEL, 5 * PIXEL);
    world.coins.clear();
    let mut rng = StdRng::seed_from_u64(6);
    let report = world.tick(&keys(false, false, false, false, true), 10_000, &mut rng);
    assert_eq!(report.enemies_defeated, 1);
    assert!(world.enemies.is_empty());
    assert_eq!(world.attacks.len(), 1);
    assert_eq!(world.attacks[0].active_timer, 90_000);
    assert_eq!(world.player.player_attack_cooldown_timer, 490_000);
    for _ in 0..9 {
        world.tick(&idle(), 10_000, &mut rng);
    }
    assert!(world.attacks.is_empty());
    assert_eq!(world.player.player_attack_cooldown_timer, 400_000);
}
