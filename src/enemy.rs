//! Enemies: straight-line wandering, and a new heading drawn at random after
//! each wall hit.
use vstd::prelude::*;
use rand::rngs::StdRng;
use rand::Rng;
use crate::collider::{collision_side, wall_collision, Collision};
use crate::geometry::{signed, signed_step, Aabb, PIXEL};
use crate::player::{travel, Player};
use crate::walls::{push_out, pushed_out, walls_wf, Wall, LEVEL_LIMIT};

verus! {

/// Pixels per second, hence micropixels per microsecond.
pub const ENEMY_SPEED: i64 = 50;

/// How far an enemy is pushed back out of a wall it has hit.
pub const ENEMY_PUSH: i64 = 7_900_000;

/// Half of an enemy's ten-pixel side.
pub const ENEMY_HALF_SIZE: i64 = 5 * PIXEL;

/// rand's `StdRng`, a seedable generator, carried through as the source of
/// enemy headings; nothing is assumed of its state.
#[verifier::external_type_specification]
#[verifier::external_body]
pub struct ExStdRng(StdRng);

/// A cardinal heading.
#[derive(Clone, Copy, Debug, PartialEq, Eq, Structural)]
pub enum Direction {
    Left,
    Right,
    Up,
    Down,
}

impl Direction {
    /// The unit vector of the heading.
    pub open spec fn delta(self) -> (int, int) {
        match self {
            Direction::Left => (-1, 0),
            Direction::Right => (1, 0),
            Direction::Up => (0, 1),
            Direction::Down => (0, -1),
        }
    }

    /// The heading for a roll of 0, 1, 2 or 3, one each.
    pub open spec fn of_roll(roll: u8) -> Direction {
        if roll == 0 {
            Direction::Left
        } else if roll == 1 {
            Direction::Right
        } else if roll == 2 {
            Direction::Up
        } else {
            Direction::Down
        }
    }

    /// Whether the heading lies on the axis of the hit: horizontal for a hit
    /// on the left or right, vertical for one on the top or bottom.
    pub open spec fn on_hit_axis(self, side: Collision) -> bool {
        match self {
            Direction::Left | Direction::Right => side is Left || side is Right,
            Direction::Up | Direction::Down => side is Top || side is Bottom,
        }
    }

    /// Whether the heading leads back the way the box came from `side`.
    pub open spec fn backtracks(self, side: Collision) -> bool {
        ||| self is Left && side is Left
        ||| self is Right && side is Right
        ||| self is Up && side is Top
        ||| self is Down && side is Bottom
    }

    pub fn from_roll(roll: u8) -> (r: Direction)
        requires
            roll < 4,
        ensures
            r == Direction::of_roll(roll),
    {
        if roll == 0 {
            Direction::Left
        } else if roll == 1 {
            Direction::Right
        } else if roll == 2 {
            Direction::Up
        } else {
            Direction::Down
        }
    }

    pub fn unit(&self) -> (r: (i64, i64))
        ensures
            (r.0 as int, r.1 as int) == self.delta(),
    {
        match self {
            Direction::Left => (-1, 0),
            Direction::Right => (1, 0),
            Direction::Up => (0, 1),
            Direction::Down => (0, -1),
        }
    }
}

/// An enemy's velocity: its heading at `ENEMY_SPEED`.
#[derive(Clone, Copy, Debug, PartialEq, Eq, Structural)]
pub struct Velocity(pub Direction);

#[derive(Clone, Copy, Debug, PartialEq, Eq, Structural)]
pub struct Enemy {
    pub body: Aabb,
    pub velocity: Velocity,
}

pub open spec fn enemies_wf(enemies: Seq<Enemy>) -> bool {
    forall|i: int| 0 <= i < enemies.len() ==> (#[trigger] enemies[i]).body.wf()
}

/// An enemy ten pixels square at `(x_position, y_position)`, heading right.
pub fn spawn_enemy(x_position: i64, y_position: i64) -> (r: Enemy)
    requires
        -LEVEL_LIMIT <= x_position <= LEVEL_LIMIT,
        -LEVEL_LIMIT <= y_position <= LEVEL_LIMIT,
    ensures
        r.body.wf(),
        r == (Enemy {
            body: Aabb {
                center_x: x_position,
                center_y: y_position,
                half_x: ENEMY_HALF_SIZE,
                half_y: ENEMY_HALF_SIZE,
            },
            velocity: Velocity(Direction::Right),
        }),
{
    Enemy {
        body: Aabb::new(x_position, y_position, ENEMY_HALF_SIZE, ENEMY_HALF_SIZE),
        velocity: Velocity(Direction::Right),
    }
}

/// The five enemies of the level.
pub fn spawn_enemies() -> (r: Vec<Enemy>)
    ensures
        enemies_wf(r@),
        r@ == level_enemies(),
{
    let mut r: Vec<Enemy> = Vec::new();
    r.push(spawn_enemy(80 * PIXEL, 80 * PIXEL));
    r.push(spawn_enemy(120 * PIXEL, 120 * PIXEL));
    r.push(spawn_enemy(250 * PIXEL, 340 * PIXEL));
    r.push(spawn_enemy(440 * PIXEL, 440 * PIXEL));
    r.push(spawn_enemy(80 * PIXEL, 440 * PIXEL));
    r
}

/// The level's enemies, at their spawn points in whole pixels.
pub open spec fn level_enemies() -> Seq<Enemy> {
    seq![
        spawn_enemy_at(80, 80),
        spawn_enemy_at(120, 120),
        spawn_enemy_at(250, 340),
        spawn_enemy_at(440, 440),
        spawn_enemy_at(80, 440),
    ]
}

/// The enemy that spawns at `(x, y)` in whole pixels.
pub open spec fn spawn_enemy_at(x: int, y: int) -> Enemy {
    Enemy {
        body: Aabb {
            center_x: (x * PIXEL) as i64,
            center_y: (y * PIXEL) as i64,
            half_x: ENEMY_HALF_SIZE,
            half_y: ENEMY_HALF_SIZE,
        },
        velocity: Velocity(Direction::Right),
    }
}

/// The enemy after moving along its velocity for `dt` microseconds.
pub open spec fn enemy_advanced(e: Enemy, dt: u32) -> Enemy {
    Enemy {
        body: e.body.moved(
            signed(e.velocity.0.delta().0, travel(ENEMY_SPEED as int, dt)),
            signed(e.velocity.0.delta().1, travel(ENEMY_SPEED as int, dt)),
        ),
        ..e
    }
}

/// Moves every enemy along its velocity for `dt` microseconds.
pub fn apply_enemy_velocity(enemies: &mut Vec<Enemy>, dt: u32)
    requires
        enemies_wf(old(enemies)@),
    ensures
        enemies_wf(final(enemies)@),
        final(enemies)@.len() == old(enemies)@.len(),
        forall|i: int|
            0 <= i < old(enemies)@.len() ==> #[trigger] final(enemies)@[i] == enemy_advanced(
                old(enemies)@[i],
                dt,
            ),
{
    let step: i64 = ENEMY_SPEED * dt as i64;
    let mut i: usize = 0;
    while i < enemies.len()
        invariant
            i <= enemies@.len(),
            enemies@.len() == old(enemies)@.len(),
            step == travel(ENEMY_SPEED as int, dt),
            enemies_wf(enemies@),
            forall|j: int| 0 <= j < i ==> #[trigger] enemies@[j] == enemy_advanced(old(enemies)@[j], dt),
            forall|j: int| i <= j < enemies@.len() ==> #[trigger] enemies@[j] == old(enemies)@[j],
        decreases enemies@.len() - i,
    {
        let enemy = enemies[i];
        let (sign_x, sign_y) = enemy.velocity.0.unit();
        let body = enemy.body.translate(signed_step(sign_x, step), signed_step(sign_y, step));
        enemies[i] = Enemy { body, velocity: enemy.velocity };
        i = i + 1;
    }
}

/// Whether the heading `d` is taken at retry tier `tier` after hitting
/// `side`: the first tier wants a heading across the other axis, the second
/// anything but straight back, the third takes whatever comes.
pub open spec fn tier_accepts(tier: int, side: Collision, d: Direction) -> bool {
    if tier == 1 {
        !d.on_hit_axis(side)
    } else if tier == 2 {
        !d.backtracks(side)
    } else {
        true
    }
}

/// The outcome of one retry tier: the heading rolled, if that tier takes it.
pub open spec fn tier_choice(tier: int, side: Collision, roll: u8) -> Option<Direction> {
    if tier_accepts(tier, side, Direction::of_roll(roll)) {
        Some(Direction::of_roll(roll))
    } else {
        None
    }
}

/// The heading chosen after hitting `side` from the three rolls of the
/// retry tiers; later rolls count only where earlier tiers refused.
pub open spec fn steer_spec(side: Collision, first: u8, second: u8, third: u8) -> Direction {
    if tier_accepts(1, side, Direction::of_roll(first)) {
        Direction::of_roll(first)
    } else if tier_accepts(2, side, Direction::of_roll(second)) {
        Direction::of_roll(second)
    } else {
        Direction::of_roll(third)
    }
}

/// One retry tier for a roll of 0 to 3: the heading if the tier takes it.
pub fn pick_direction(tier: u8, side: Collision, roll: u8) -> (r: Option<Direction>)
    requires
        1 <= tier <= 3,
        roll < 4,
    ensures
        r == tier_choice(tier as int, side, roll),
{
    let d = Direction::from_roll(roll);
    let accepted = if tier == 1 {
        match d {
            Direction::Left | Direction::Right => !(side == Collision::Left || side
                == Collision::Right),
            Direction::Up | Direction::Down => !(side == Collision::Top || side
                == Collision::Bottom),
        }
    } else if tier == 2 {
        match d {
            Direction::Left => side != Collision::Left,
            Direction::Right => side != Collision::Right,
            Direction::Up => side != Collision::Top,
            Direction::Down => side != Collision::Bottom,
        }
    } else {
        true
    };
    if accepted {
        Some(d)
    } else {
        None
    }
}

/// The heading after hitting `side`, given the rolls of the three tiers.
pub fn steer(side: Collision, first: u8, second: u8, third: u8) -> (r: Direction)
    requires
        first < 4,
        second < 4,
        third < 4,
    ensures
        r == steer_spec(side, first, second, third),
{
    if let Some(d) = pick_direction(1, side, first) {
        return d;
    }
    if let Some(d) = pick_direction(2, side, second) {
        return d;
    }
    Direction::from_roll(third)
}

/// Relies on rand's `Rng::gen_range`, which returns a value of the range it
/// is given: here one of 0, 1, 2 and 3.
#[verifier::external_body]
fn roll_direction(rng: &mut StdRng) -> (r: u8)
    ensures
        r < 4,
{
    rng.gen_range(0..4u8)
}

/// Whether `rolls` is a full run of the retry tiers after hitting `side`
/// that settles on `d`: one roll of 0 to 3 per tier, every tier but the last
/// refusing its roll, and the last taking its roll as `d`.
pub open spec fn settles_on(side: Collision, rolls: Seq<u8>, d: Direction) -> bool {
    &&& 1 <= rolls.len() <= 3
    &&& forall|k: int| 0 <= k < rolls.len() ==> #[trigger] rolls[k] < 4
    &&& forall|k: int| 0 <= k < rolls.len() - 1 ==> tier_choice(k + 1, side, #[trigger] rolls[k]) is None
    &&& tier_choice(rolls.len() as int, side, rolls[rolls.len() - 1]) == Some(d)
}

/// A heading chosen after a wall hit, with the rolls it took, one per tier
/// tried.
#[derive(Clone, Debug)]
pub struct Steering {
    pub direction: Direction,
    pub draws: u8,
    pub rolls: Vec<u8>,
}

/// Draws a new heading after hitting `side`: a roll per tier until a tier
/// takes it. The third tier takes every heading, so at most three rolls are
/// made.
pub fn reselect_direction(rng: &mut StdRng, side: Collision) -> (r: Steering)
    ensures
        1 <= r.draws <= 3,
        r.rolls@.len() == r.draws,
        settles_on(side, r.rolls@, r.direction),
{
    let mut tier: u8 = 1;
    let mut rolls: Vec<u8> = Vec::new();
    loop
        invariant
            1 <= tier <= 3,
            rolls@.len() == tier - 1,
            forall|k: int| 0 <= k < rolls@.len() ==> #[trigger] rolls@[k] < 4,
            forall|k: int| 0 <= k < rolls@.len() ==> #[trigger] tier_choice(k + 1, side, rolls@[k]) is None,
        decreases 3 - tier,
    {
        let roll = roll_direction(rng);
        let choice = pick_direction(tier, side, roll);
        rolls.push(roll);
        if let Some(direction) = choice {
            return Steering { direction, draws: tier, rolls };
        }
        tier = tier + 1;
    }
}

/// The side of the first of `walls`, in order, that `probe` hits.
pub open spec fn first_hit(probe: Aabb, walls: Seq<Wall>) -> Option<Collision>
    decreases walls.len(),
{
    if walls.len() == 0 {
        None
    } else {
        match collision_side(probe, walls[0].body) {
            Some(side) => Some(side),
            None => first_hit(probe, walls.drop_first()),
        }
    }
}

/// What the wall stage of a tick does to one enemy: one that hits no wall
/// keeps its place and heading; one that does is pushed back out of the first
/// wall it hits and takes the heading that some run of the retry tiers
/// settles on.
pub open spec fn enemy_after_walls(before: Enemy, after: Enemy, walls: Seq<Wall>) -> bool {
    match first_hit(before.body, walls) {
        None => after == before,
        Some(side) => {
            &&& after.body == pushed_out(before.body, side, ENEMY_PUSH as int)
            &&& exists|rolls: Seq<u8>| #[trigger] settles_on(side, rolls, after.velocity.0)
        },
    }
}

/// The side of the first wall that `probe` hits, if any.
pub fn first_wall_hit(probe: &Aabb, walls: &Vec<Wall>) -> (r: Option<Collision>)
    requires
        probe.wf(),
        walls_wf(walls@),
    ensures
        r == first_hit(*probe, walls@),
{
    let mut j: usize = 0;
    assert(walls@.subrange(0, walls@.len() as int) =~= walls@);
    while j < walls.len()
        invariant
            j <= walls@.len(),
            probe.wf(),
            walls_wf(walls@),
            first_hit(*probe, walls@) == first_hit(
                *probe,
                walls@.subrange(j as int, walls@.len() as int),
            ),
        decreases walls@.len() - j,
    {
        let rest = Ghost(walls@.subrange(j as int, walls@.len() as int));
        assert(rest@[0] == walls@[j as int]);
        assert(rest@.drop_first() =~= walls@.subrange(j as int + 1, walls@.len() as int));
        if let Some(side) = wall_collision(probe, &walls[j].body) {
            return Some(side);
        }
        j = j + 1;
    }
    None
}

/// The wall stage for enemies: each enemy that overlaps a wall is pushed back
/// out of the first one it hits and draws a new heading; the others are left
/// as they are.
pub fn update_enemy_movement(enemies: &mut Vec<Enemy>, walls: &Vec<Wall>, rng: &mut StdRng)
    requires
        enemies_wf(old(enemies)@),
        walls_wf(walls@),
    ensures
        enemies_wf(final(enemies)@),
        final(enemies)@.len() == old(enemies)@.len(),
        forall|i: int|
            0 <= i < old(enemies)@.len() ==> enemy_after_walls(
                old(enemies)@[i],
                #[trigger] final(enemies)@[i],
                walls@,
            ),
{
    let mut i: usize = 0;
    while i < enemies.len()
        invariant
            i <= enemies@.len(),
            enemies@.len() == old(enemies)@.len(),
            enemies_wf(enemies@),
            walls_wf(walls@),
            forall|j: int|
                0 <= j < i ==> enemy_after_walls(old(enemies)@[j], #[trigger] enemies@[j], walls@),
            forall|j: int| i <= j < enemies@.len() ==> #[trigger] enemies@[j] == old(enemies)@[j],
        decreases enemies@.len() - i,
    {
        let enemy = enemies[i];
        if let Some(side) = first_wall_hit(&enemy.body, walls) {
            let body = push_out(&enemy.body, side, ENEMY_PUSH);
            let steering = reselect_direction(rng, side);
            proof {
                assert(settles_on(side, steering.rolls@, steering.direction));
            }
            enemies[i] = Enemy { body, velocity: Velocity(steering.direction) };
        }
        i = i + 1;
    }
}

/// Whether some enemy's box overlaps `body`.
pub open spec fn touched_by_enemy(body: Aabb, enemies: Seq<Enemy>) -> bool {
    exists|i: int| 0 <= i < enemies.len() && (#[trigger] enemies[i]).body.overlaps(body)
}

/// The player after meeting the enemies: any overlap kills it, for good.
pub open spec fn player_after_enemies(p: Player, enemies: Seq<Enemy>) -> Player {
    Player { alive: p.alive && !touched_by_enemy(p.body, enemies), ..p }
}

/// Kills the player if any enemy overlaps it, and returns whether this call
/// is the one that did: the game-over signal.
pub fn check_for_player_collisions(player: &mut Player, enemies: &Vec<Enemy>) -> (died: bool)
    requires
        old(player).wf(),
        enemies_wf(enemies@),
    ensures
        *final(player) == player_after_enemies(*old(player), enemies@),
        died == (old(player).alive && touched_by_enemy(old(player).body, enemies@)),
{
    let mut touched = false;
    let mut i: usize = 0;
    while i < enemies.len()
        invariant
            i <= enemies@.len(),
            player.wf(),
            enemies_wf(enemies@),
            touched == exists|j: int| 0 <= j < i && (#[trigger] enemies@[j]).body.overlaps(player.body),
        decreases enemies@.len() - i,
    {
        if enemies[i].body.intersects(&player.body) {
            touched = true;
        }
        i = i + 1;
    }
    let died = player.alive && touched;
    if touched {
        player.alive = false;
    }
    died
}

} // verus!
