//! The player: spawn state, held-key input and motion.
use vstd::prelude::*;
use crate::geometry::{signed, signed_step, Aabb, PIXEL};

verus! {

/// Pixels per second, hence micropixels per microsecond.
pub const PLAYER_SPEED: i64 = 200;

/// Where the player spawns.
pub const PLAYER_SPAWN_X: i64 = 20 * PIXEL;
pub const PLAYER_SPAWN_Y: i64 = 10 * PIXEL;

/// Half of the player's ten-pixel side.
pub const PLAYER_HALF_SIZE: i64 = 5 * PIXEL;

#[derive(Clone, Copy, Debug, PartialEq, Eq, Structural)]
pub enum PlayerFacingDirection {
    Left,
    Right,
    Up,
    Down,
}

/// The keys held during one tick.
#[derive(Clone, Copy, Debug, PartialEq, Eq, Structural)]
pub struct Input {
    pub left: bool,
    pub right: bool,
    pub up: bool,
    pub down: bool,
    pub attack: bool,
}

impl Input {
    /// -1, 0 or 1 along x; opposite keys cancel.
    pub open spec fn intent_x(self) -> int {
        (if self.right { 1int } else { 0int }) - (if self.left { 1int } else { 0int })
    }

    /// -1, 0 or 1 along y; opposite keys cancel.
    pub open spec fn intent_y(self) -> int {
        (if self.up { 1int } else { 0int }) - (if self.down { 1int } else { 0int })
    }

    /// The facing after this input: keys are read left, right, up, down and
    /// the last one held wins; with none held the facing stays.
    pub open spec fn facing_from(self, previous: PlayerFacingDirection) -> PlayerFacingDirection {
        if self.down {
            PlayerFacingDirection::Down
        } else if self.up {
            PlayerFacingDirection::Up
        } else if self.right {
            PlayerFacingDirection::Right
        } else if self.left {
            PlayerFacingDirection::Left
        } else {
            previous
        }
    }
}

#[derive(Clone, Copy, Debug, PartialEq, Eq, Structural)]
pub struct Player {
    pub body: Aabb,
    pub alive: bool,
    /// Microseconds until the next attack is allowed; zero when it is.
    pub player_attack_cooldown_timer: u64,
    pub player_facing_direction: PlayerFacingDirection,
}

impl Player {
    pub open spec fn wf(self) -> bool {
        self.body.wf()
    }
}

/// How far something at `speed` pixels per second goes in `dt` microseconds,
/// in micropixels.
pub open spec fn travel(speed: int, dt: u32) -> int {
    speed * dt
}

/// The player after the motion stage of a tick: a live player moves by its
/// intent at full speed on each axis (a diagonal is faster) and turns to the
/// facing of the keys; a dead one stays as it is.
pub open spec fn player_moved(p: Player, input: Input, dt: u32) -> Player {
    if !p.alive {
        p
    } else {
        Player {
            body: p.body.moved(
                signed(input.intent_x(), travel(PLAYER_SPEED as int, dt)),
                signed(input.intent_y(), travel(PLAYER_SPEED as int, dt)),
            ),
            player_facing_direction: input.facing_from(p.player_facing_direction),
            ..p
        }
    }
}

/// The player as it spawns: at (20, 10), ten pixels square, alive, facing
/// down, free to attack.
pub fn spawn_player() -> (r: Player)
    ensures
        r.wf(),
        r.alive,
        r.body == (Aabb {
            center_x: PLAYER_SPAWN_X,
            center_y: PLAYER_SPAWN_Y,
            half_x: PLAYER_HALF_SIZE,
            half_y: PLAYER_HALF_SIZE,
        }),
        r.player_facing_direction == PlayerFacingDirection::Down,
        r.player_attack_cooldown_timer == 0,
{
    Player {
        body: Aabb::new(PLAYER_SPAWN_X, PLAYER_SPAWN_Y, PLAYER_HALF_SIZE, PLAYER_HALF_SIZE),
        alive: true,
        player_attack_cooldown_timer: 0,
        player_facing_direction: PlayerFacingDirection::Down,
    }
}

/// Moves a live player by the held keys over `dt` microseconds and updates
/// its facing; a dead player is left untouched.
pub fn move_player(player: &mut Player, input: &Input, dt: u32)
    requires
        old(player).wf(),
    ensures
        final(player).wf(),
        *final(player) == player_moved(*old(player), *input, dt),
{
    if !player.alive {
        return;
    }
    let mut direction_x: i64 = 0;
    let mut direction_y: i64 = 0;
    let mut facing = player.player_facing_direction;
    if input.left {
        direction_x = direction_x - 1;
        facing = PlayerFacingDirection::Left;
    }
    if input.right {
        direction_x = direction_x + 1;
        facing = PlayerFacingDirection::Right;
    }
    if input.up {
        direction_y = direction_y + 1;
        facing = PlayerFacingDirection::Up;
    }
    if input.down {
        direction_y = direction_y - 1;
        facing = PlayerFacingDirection::Down;
    }
    let step: i64 = PLAYER_SPEED * dt as i64;
    player.body = player.body.translate(
        signed_step(direction_x, step),
        signed_step(direction_y, step),
    );
    player.player_facing_direction = facing;
}

} // verus!
