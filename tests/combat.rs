use maze_game::coins::{check_for_player_collisions_with_coins, spawn_coin, spawn_coins, Score};
use maze_game::enemy::spawn_enemy;
use maze_game::finish_area::{finish_area_collision, spawn_finish_area, FinishAreaBundle};
use maze_game::geometry::{Aabb, PIXEL};
use maze_game::player::{spawn_player, Input, PlayerFacingDirection};
use maze_game::player_attack::{
    cooldown_player_attack_timer, player_attack, player_attack_check_for_enemy_collisions,
    remove_player_attacks, PlayerAttack,
};

fn attack_key() -> Input {
    Input { left: false, right: false, up: false, down: false, attack: true }
}

#[test]
fn attack_spawns_ahead_of_player() {
    let mut player = spawn_player();
    let mut attacks: Vec<PlayerAttack> = Vec::new();
    assert!(player_attack(&mut player, &attack_key(), &mut attacks));
    assert_eq!(player.player_attack_cooldown_timer, 500_000);
    assert_eq!(attacks.len(), 1);
    // Facing down: 30 px below, 20 wide and 40 tall.
    assert_eq!(attacks[0].body, Aabb::new(20 * PIXEL, -20 * PIXEL, 10 * PIXEL, 20 * PIXEL));
    assert_eq!(attacks[0].active_timer, 100_000);
}

#[test]
fn attack_hitbox_follows_facing() {
    let mut player = spawn_player();
    player.player_facing_direction = PlayerFacingDirection::Left;
    let mut attacks: Vec<PlayerAttack> = Vec::new();
    assert!(player_attack(&mut player, &attack_key(), &mut attacks));
    assert_eq!(attacks[0].body, Aabb::new(-10 * PIXEL, 10 * PIXEL, 20 * PIXEL, 10 * PIXEL));
    let mut player = spawn_player();
    player.player_facing_direction = PlayerFacingDirection::Up;
    assert!(player_attack(&mut player, &attack_key(), &mut attacks));
    assert_eq!(attacks[1].body, Aabb::new(20 * PIXEL, 40 * PIXEL, 10 * PIXEL, 20 * PIXEL));
}

#[test]
fn attack_needs_key_cooldown_and_life() {
    let mut player = spawn_player();
    let mut attacks: Vec<PlayerAttack> = Vec::new();
    let no_key = Input { attack: false, ..attack_key() };
    assert!(!player_attack(&mut player, &no_key, &mut attacks));
    assert!(player_attack(&mut player, &attack_key(), &mut attacks));
    assert!(!player_attack(&mut player, &attack_key(), &mut attacks));
    assert_eq!(attacks.len(), 1);
    cooldown_player_attack_timer(&mut player, 499_999);
    assert_eq!(player.player_attack_cooldown_timer, 1);
    assert!(!player_attack(&mut player, &attack_key(), &mut attacks));
    cooldown_player_attack_timer(&mut player, 10);
    assert_eq!(player.player_attack_cooldown_timer, 0);
    assert!(player_attack(&mut player, &attack_key(), &mut attacks));
    assert_eq!(attacks.len(), 2);
    let mut dead = spawn_player();
    dead.alive = false;
    assert!(!player_attack(&mut dead, &attack_key(), &mut attacks));
    assert_eq!(dead.player_attack_cooldown_timer, 0);
    assert_eq!(attacks.len(), 2);
}

#[test]
fn attacks_expire_after_their_duration() {
    let hitbox = Aabb::new(0, 0, PIXEL, PIXEL);
    let mut attacks = vec![
        PlayerAttack { body: hitbox, active_timer: 100_000 },
        PlayerAttack { body: hitbox, active_timer: 30_000 },
    ];
    remove_player_attacks(&mut attacks, 40_000);
    assert_eq!(attacks, vec![PlayerAttack { body: hitbox, active_timer: 60_000 }]);
    remove_player_attacks(&mut attacks, 60_000);
    assert!(attacks.is_empty());
}

#[test]
fn attack_removes_every_enemy_it_overlaps() {
    let attacks = vec![PlayerAttack {
        body: Aabb::new(20 * PIXEL, -20 * PIXEL, 10 * PIXEL, 20 * PIXEL),
        active_timer: 100_000,
    }];
    let mut enemies = vec![
        spawn_enemy(20 * PIXEL, -35 * PIXEL),
        spawn_enemy(80 * PIXEL, 80 * PIXEL),
        spawn_enemy(25 * PIXEL, -10 * PIXEL),
    ];
    let defeated = player_attack_check_for_enemy_collisions(&attacks, &mut enemies);
    assert_eq!(defeated, 2);
    assert_eq!(enemies, vec![spawn_enemy(80 * PIXEL, 80 * PIXEL)]);
    assert_eq!(attacks.len(), 1);
}

#[test]
fn coins_count_once() {
    let mut score = Score(0);
    let mut player = spawn_player();
    player.body = Aabb::new(80 * PIXEL, 80 * PIXEL, 5 * PIXEL, 5 * PIXEL);
    let mut coins = spawn_coins();
    let got = check_for_player_collisions_with_coins(&mut score, &player, &mut coins);
    assert_eq!(got, 1);
    assert_eq!(score, Score(1));
    assert_eq!(coins.len(), 4);
    let again = check_for_player_collisions_with_coins(&mut score, &player, &mut coins);
    assert_eq!(again, 0);
    assert_eq!(score, Score(1));
    assert_eq!(coins[0], spawn_coin(120 * PIXEL, 120 * PIXEL));
}

#[test]
fn coins_picked_together_all_count() {
    let mut score = Score(7);
    let player = spawn_player();
    let mut coins = vec![
        spawn_coin(20 * PIXEL, 10 * PIXEL),
        spawn_coin(300 * PIXEL, 10 * PIXEL),
        spawn_coin(28 * PIXEL, 18 * PIXEL),
    ];
    assert_eq!(check_for_player_collisions_with_coins(&mut score, &player, &mut coins), 2);
    assert_eq!(score, Score(9));
    assert_eq!(coins, vec![spawn_coin(300 * PIXEL, 10 * PIXEL)]);
}

#[test]
fn finish_area_from_corner_and_size() {
    let area = spawn_finish_area().finish_area;
    assert_eq!(area.body, Aabb::new(587_500_000, 592_500_000, 12_500_000, 12_500_000));
    let custom = FinishAreaBundle::new(0, 0, 10 * PIXEL, 4 * PIXEL).finish_area;
    assert_eq!(custom.body, Aabb::new(5 * PIXEL, 2 * PIXEL, 5 * PIXEL, 2 * PIXEL));
}

#[test]
fn finish_area_signals_on_overlap() {
    let area = spawn_finish_area().finish_area;
    let on = Aabb::new(570 * PIXEL, 592 * PIXEL, 5 * PIXEL, 5 * PIXEL);
    let off = Aabb::new(569 * PIXEL, 592 * PIXEL, 5 * PIXEL, 5 * PIXEL);
    assert!(finish_area_collision(&on, &area));
    assert!(!finish_area_collision(&off, &area));
}
