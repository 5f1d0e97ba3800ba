use maze_game::collider::Collision;
use maze_game::enemy::{
    apply_enemy_velocity, check_for_player_collisions, pick_direction, reselect_direction,
    spawn_enemies, spawn_enemy, steer, update_enemy_movement, Direction, Enemy, Velocity,
};
use maze_game::geometry::{Aabb, PIXEL};
use maze_game::player::spawn_player;
use maze_game::walls::WallBundle;
use rand::rngs::StdRng;
use rand::SeedableRng;

const SIDES: [Collision; 4] = [Collision::Left, Collision::Right, Collision::Top, Collision::Bottom];

fn along_hit_axis(d: Direction, side: Collision) -> bool {
    match d {
        Direction::Left | Direction::Right => side == Collision::Left || side == Collision::Right,
        Direction::Up | Direction::Down => side == Collision::Top || side == Collision::Bottom,
    }
}

fn backtracks(d: Direction, side: Collision) -> bool {
    matches!(
        (d, side),
        (Direction::Left, Collision::Left)
            | (Direction::Right, Collision::Right)
            | (Direction::Up, Collision::Top)
            | (Direction::Down, Collision::Bottom)
    )
}

#[test]
fn each_roll_maps_to_one_heading() {
    assert_eq!(Direction::from_roll(0), Direction::Left);
    assert_eq!(Direction::from_roll(1), Direction::Right);
    assert_eq!(Direction::from_roll(2), Direction::Up);
    assert_eq!(Direction::from_roll(3), Direction::Down);
}

#[test]
fn first_tier_wants_the_other_axis() {
    assert_eq!(pick_direction(1, Collision::Left, 0), None);
    assert_eq!(pick_direction(1, Collision::Left, 1), None);
    assert_eq!(pick_direction(1, Collision::Left, 2), Some(Direction::Up));
    assert_eq!(pick_direction(1, Collision::Left, 3), Some(Direction::Down));
    assert_eq!(pick_direction(1, Collision::Top, 2), None);
    assert_eq!(pick_direction(1, Collision::Top, 0), Some(Direction::Left));
}

#[test]
fn second_tier_refuses_only_backtracking() {
    assert_eq!(pick_direction(2, Collision::Left, 0), None);
    assert_eq!(pick_direction(2, Collision::Left, 1), Some(Direction::Right));
    assert_eq!(pick_direction(2, Collision::Bottom, 3), None);
    assert_eq!(pick_direction(2, Collision::Bottom, 2), Some(Direction::Up));
}

#[test]
fn third_tier_takes_anything() {
    for side in SIDES {
        for roll in 0..4u8 {
            assert_eq!(pick_direction(3, side, roll), Some(Direction::from_roll(roll)));
        }
    }
}

#[test]
fn steer_uses_later_rolls_only_when_refused() {
    // First roll accepted.
    assert_eq!(steer(Collision::Right, 2, 0, 1), Direction::Up);
    // First refused (same axis), second accepted (not backtracking).
    assert_eq!(steer(Collision::Right, 0, 0, 1), Direction::Left);
    // First and second refused, third taken as it is.
    assert_eq!(steer(Collision::Right, 1, 1, 1), Direction::Right);
}

#[test]
fn steering_settles_within_three_draws() {
    for seed in 0..200u64 {
        let mut rng = StdRng::seed_from_u64(seed);
        for side in SIDES {
            let s = reselect_direction(&mut rng, side);
            assert!(1 <= s.draws && s.draws <= 3);
            assert_eq!(s.rolls.len(), s.draws as usize);
            for (k, roll) in s.rolls.iter().enumerate() {
                assert!(*roll < 4);
                let tier = k as u8 + 1;
                if tier < s.draws {
                    assert_eq!(pick_direction(tier, side, *roll), None);
                } else {
                    assert_eq!(pick_direction(tier, side, *roll), Some(s.direction));
                }
            }
            if s.draws == 1 {
                assert!(!along_hit_axis(s.direction, side));
            }
            if s.draws == 2 {
                assert!(!backtracks(s.direction, side));
            }
        }
    }
}

#[test]
fn steering_draws_vary() {
    let mut seen = Vec::new();
    for seed in 0..100u64 {
        let mut rng = StdRng::seed_from_u64(seed);
        let s = reselect_direction(&mut rng, Collision::Left);
        if !seen.contains(&s.direction) {
            seen.push(s.direction);
        }
    }
    assert!(seen.contains(&Direction::Up));
    assert!(seen.contains(&Direction::Down));
}

#[test]
fn enemies_spawn_heading_right() {
    let enemies = spawn_enemies();
    assert_eq!(enemies.len(), 5);
    assert_eq!(enemies[0], spawn_enemy(80 * PIXEL, 80 * PIXEL));
    assert_eq!(enemies[2].body, Aabb::new(250 * PIXEL, 340 * PIXEL, 5 * PIXEL, 5 * PIXEL));
    assert_eq!(enemies[4].body.center_y, 440 * PIXEL);
    for e in enemies.iter() {
        assert_eq!(e.velocity, Velocity(Direction::Right));
    }
}

#[test]
fn enemies_move_at_fifty_pixels_per_second() {
    let mut enemies = vec![
        spawn_enemy(80 * PIXEL, 80 * PIXEL),
        Enemy { velocity: Velocity(Direction::Down), ..spawn_enemy(0, 0) },
    ];
    apply_enemy_velocity(&mut enemies, 15_625);
    // 50 px/s for 15.625 ms is 0.78125 px.
    assert_eq!(enemies[0].body.center_x, 80 * PIXEL + 781_250);
    assert_eq!(enemies[0].body.center_y, 80 * PIXEL);
    assert_eq!(enemies[1].body.center_x, 0);
    assert_eq!(enemies[1].body.center_y, -781_250);
}

#[test]
fn enemy_bounces_off_wall_and_turns() {
    let walls = vec![WallBundle::new(0, 65 * PIXEL, 200 * PIXEL, 65 * PIXEL).wall];
    for seed in 0..50u64 {
        let mut rng = StdRng::seed_from_u64(seed);
        let mut enemies = vec![
            Enemy { velocity: Velocity(Direction::Up), ..spawn_enemy(100 * PIXEL, 60 * PIXEL) },
            spawn_enemy(400 * PIXEL, 60 * PIXEL),
        ];
        update_enemy_movement(&mut enemies, &walls, &mut rng);
        // Hit from below: pushed 7.9 px down.
        assert_eq!(enemies[0].body.center_y, 60 * PIXEL - 7_900_000);
        assert_eq!(enemies[0].body.center_x, 100 * PIXEL);
        assert_eq!(enemies[1], spawn_enemy(400 * PIXEL, 60 * PIXEL));
    }
}

#[test]
fn touching_enemy_kills_player_once() {
    let mut player = spawn_player();
    let far = vec![spawn_enemy(200 * PIXEL, 200 * PIXEL)];
    assert!(!check_for_player_collisions(&mut player, &far));
    assert!(player.alive);
    let near = vec![spawn_enemy(200 * PIXEL, 200 * PIXEL), spawn_enemy(29 * PIXEL, 10 * PIXEL)];
    assert!(check_for_player_collisions(&mut player, &near));
    assert!(!player.alive);
    assert!(!check_for_player_collisions(&mut player, &near));
    assert!(!player.alive);
}

#[test]
fn same_seed_same_headings() {
    for seed in 0..20u64 {
        let mut a = StdRng::seed_from_u64(seed);
        let mut b = StdRng::seed_from_u64(seed);
        for side in SIDES {
            let x = reselect_direction(&mut a, side);
            let y = reselect_direction(&mut b, side);
            assert_eq!(x.direction, y.direction);
            assert_eq!(x.rolls, y.rolls);
        }
    }
}

#[test]
fn enemy_hitting_left_face_is_pushed_back() {
    // Enemy at (14, 0), size 10, against a wall at (20, 0), size 10: the
    // left face is hit and the enemy moves back 7.9 px to 6.1 px.
    let walls = vec![WallBundle::new(15 * PIXEL, -5 * PIXEL, 25 * PIXEL, 5 * PIXEL).wall];
    assert_eq!(walls[0].body, Aabb::new(20 * PIXEL, 0, 5 * PIXEL, 5 * PIXEL));
    let mut rng = StdRng::seed_from_u64(9);
    let mut enemies = vec![spawn_enemy(14 * PIXEL, 0)];
    update_enemy_movement(&mut enemies, &walls, &mut rng);
    assert_eq!(enemies[0].body.center_x, 6_100_000);
    assert_eq!(enemies[0].body.center_y, 0);
    // A first roll of Up is taken at once after a hit on the left face.
    assert_eq!(pick_direction(1, Collision::Left, 2), Some(Direction::Up));
    assert_eq!(steer(Collision::Left, 2, 0, 0), Direction::Up);
}
