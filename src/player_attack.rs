//! The player's melee attack: spawning a hitbox, striking enemies, expiry
//! and the cooldown between attacks.
use vstd::prelude::*;
use crate::enemy::{enemies_wf, Enemy};
use crate::geometry::{Aabb, PIXEL};
use crate::player::{Input, Player, PlayerFacingDirection};

verus! {

/// Microseconds between one attack and the next.
pub const ATTACK_COOLDOWN: u64 = 500_000;

/// Microseconds an attack's hitbox stays active.
pub const ATTACK_DURATION: u64 = 100_000;

/// How far ahead of the player's centre the hitbox is placed.
pub const ATTACK_REACH: i64 = 30 * PIXEL;

/// Half of the hitbox's forty-pixel length along the facing axis.
pub const ATTACK_HALF_LENGTH: i64 = 20 * PIXEL;

/// Half of the hitbox's twenty-pixel width across the facing axis.
pub const ATTACK_HALF_WIDTH: i64 = 10 * PIXEL;

/// A live attack hitbox.
#[derive(Clone, Copy, Debug, PartialEq, Eq, Structural)]
pub struct PlayerAttack {
    pub body: Aabb,
    /// Microseconds of activity left.
    pub active_timer: u64,
}

pub open spec fn attacks_wf(attacks: Seq<PlayerAttack>) -> bool {
    forall|i: int| 0 <= i < attacks.len() ==> (#[trigger] attacks[i]).body.wf()
}

/// A timer of `t` microseconds left after `dt` more have passed; it stops at zero.
pub open spec fn count_down(t: u64, dt: u32) -> u64 {
    if t > dt {
        (t - dt) as u64
    } else {
        0
    }
}

/// The hitbox of an attack by `p`: `ATTACK_REACH` ahead of its centre along
/// its facing, long along that axis and narrow across it.
pub open spec fn attack_box(p: Player) -> Aabb {
    match p.player_facing_direction {
        PlayerFacingDirection::Left => Aabb {
            half_x: ATTACK_HALF_LENGTH,
            half_y: ATTACK_HALF_WIDTH,
            ..p.body.moved(-ATTACK_REACH, 0)
        },
        PlayerFacingDirection::Right => Aabb {
            half_x: ATTACK_HALF_LENGTH,
            half_y: ATTACK_HALF_WIDTH,
            ..p.body.moved(ATTACK_REACH as int, 0)
        },
        PlayerFacingDirection::Up => Aabb {
            half_x: ATTACK_HALF_WIDTH,
            half_y: ATTACK_HALF_LENGTH,
            ..p.body.moved(0, ATTACK_REACH as int)
        },
        PlayerFacingDirection::Down => Aabb {
            half_x: ATTACK_HALF_WIDTH,
            half_y: ATTACK_HALF_LENGTH,
            ..p.body.moved(0, -ATTACK_REACH)
        },
    }
}

/// Whether `p` attacks on `input`: it is alive, the attack key is held and
/// the cooldown has run out.
pub open spec fn attack_allowed(p: Player, input: Input) -> bool {
    p.alive && input.attack && p.player_attack_cooldown_timer == 0
}

/// Spawns an attack hitbox in front of the player when it may attack, and
/// restarts the cooldown. Returns whether an attack was made.
pub fn player_attack(player: &mut Player, input: &Input, attacks: &mut Vec<PlayerAttack>) -> (spawned:
    bool)
    requires
        old(player).wf(),
        attacks_wf(old(attacks)@),
    ensures
        final(player).wf(),
        attacks_wf(final(attacks)@),
        spawned == attack_allowed(*old(player), *input),
        spawned ==> *final(player) == (Player {
            player_attack_cooldown_timer: ATTACK_COOLDOWN,
            ..*old(player)
        }),
        spawned ==> final(attacks)@ == old(attacks)@.push(
            PlayerAttack { body: attack_box(*old(player)), active_timer: ATTACK_DURATION },
        ),
        !spawned ==> *final(player) == *old(player) && final(attacks)@ == old(attacks)@,
{
    if !player.alive {
        return false;
    }
    if !(input.attack && player.player_attack_cooldown_timer == 0) {
        return false;
    }
    player.player_attack_cooldown_timer = ATTACK_COOLDOWN;
    let body = match player.player_facing_direction {
        PlayerFacingDirection::Left => {
            let at = player.body.translate(-ATTACK_REACH, 0);
            Aabb::new(at.center_x, at.center_y, ATTACK_HALF_LENGTH, ATTACK_HALF_WIDTH)
        },
        PlayerFacingDirection::Right => {
            let at = player.body.translate(ATTACK_REACH, 0);
            Aabb::new(at.center_x, at.center_y, ATTACK_HALF_LENGTH, ATTACK_HALF_WIDTH)
        },
        PlayerFacingDirection::Up => {
            let at = player.body.translate(0, ATTACK_REACH);
            Aabb::new(at.center_x, at.center_y, ATTACK_HALF_WIDTH, ATTACK_HALF_LENGTH)
        },
        PlayerFacingDirection::Down => {
            let at = player.body.translate(0, -ATTACK_REACH);
            Aabb::new(at.center_x, at.center_y, ATTACK_HALF_WIDTH, ATTACK_HALF_LENGTH)
        },
    };
    attacks.push(PlayerAttack { body, active_timer: ATTACK_DURATION });
    true
}

/// Whether some attack's hitbox overlaps `body`.
pub open spec fn struck(body: Aabb, attacks: Seq<PlayerAttack>) -> bool {
    exists|i: int| 0 <= i < attacks.len() && (#[trigger] attacks[i]).body.overlaps(body)
}

/// The enemies, in order, that no attack overlaps.
pub open spec fn enemies_left(enemies: Seq<Enemy>, attacks: Seq<PlayerAttack>) -> Seq<Enemy>
    decreases enemies.len(),
{
    if enemies.len() == 0 {
        enemies
    } else {
        let kept = enemies_left(enemies.drop_last(), attacks);
        if struck(enemies.last().body, attacks) {
            kept
        } else {
            kept.push(enemies.last())
        }
    }
}

pub proof fn lemma_enemies_left_shrinks(enemies: Seq<Enemy>, attacks: Seq<PlayerAttack>)
    ensures
        enemies_left(enemies, attacks).len() <= enemies.len(),
        enemies_wf(enemies) ==> enemies_wf(enemies_left(enemies, attacks)),
    decreases enemies.len(),
{
    if enemies.len() > 0 {
        lemma_enemies_left_shrinks(enemies.drop_last(), attacks);
        if enemies_wf(enemies) {
            assert(enemies_wf(enemies.drop_last()));
        }
    }
}

fn is_struck(body: &Aabb, attacks: &Vec<PlayerAttack>) -> (r: bool)
    requires
        body.wf(),
        attacks_wf(attacks@),
    ensures
        r == struck(*body, attacks@),
{
    let mut i: usize = 0;
    while i < attacks.len()
        invariant
            i <= attacks@.len(),
            body.wf(),
            attacks_wf(attacks@),
            forall|j: int| 0 <= j < i ==> !(#[trigger] attacks@[j]).body.overlaps(*body),
        decreases attacks@.len() - i,
    {
        if attacks[i].body.intersects(body) {
            return true;
        }
        i = i + 1;
    }
    false
}

/// Removes every enemy that an attack's hitbox overlaps; the attacks stay
/// until they expire. Returns how many enemies were removed.
pub fn player_attack_check_for_enemy_collisions(
    attacks: &Vec<PlayerAttack>,
    enemies: &mut Vec<Enemy>,
) -> (defeated: usize)
    requires
        attacks_wf(attacks@),
        enemies_wf(old(enemies)@),
    ensures
        enemies_wf(final(enemies)@),
        final(enemies)@ == enemies_left(old(enemies)@, attacks@),
        defeated == old(enemies)@.len() - final(enemies)@.len(),
{
    let mut kept: Vec<Enemy> = Vec::new();
    let mut defeated: usize = 0;
    let mut i: usize = 0;
    while i < enemies.len()
        invariant
            i <= enemies@.len(),
            enemies@ == old(enemies)@,
            attacks_wf(attacks@),
            enemies_wf(enemies@),
            kept@ == enemies_left(enemies@.take(i as int), attacks@),
            defeated + kept@.len() == i,
        decreases enemies@.len() - i,
    {
        assert(enemies@.take(i as int + 1).drop_last() =~= enemies@.take(i as int));
        let enemy = enemies[i];
        if is_struck(&enemy.body, attacks) {
            defeated = defeated + 1;
        } else {
            kept.push(enemy);
        }
        i = i + 1;
    }
    assert(enemies@.take(enemies@.len() as int) =~= enemies@);
    proof {
        lemma_enemies_left_shrinks(enemies@, attacks@);
    }
    *enemies = kept;
    defeated
}

/// The attacks after `dt` more microseconds: each timer counts down, and
/// those that reach zero are gone.
pub open spec fn attacks_after(attacks: Seq<PlayerAttack>, dt: u32) -> Seq<PlayerAttack>
    decreases attacks.len(),
{
    if attacks.len() == 0 {
        attacks
    } else {
        let kept = attacks_after(attacks.drop_last(), dt);
        let last = attacks.last();
        if count_down(last.active_timer, dt) == 0 {
            kept
        } else {
            kept.push(PlayerAttack { active_timer: count_down(last.active_timer, dt), ..last })
        }
    }
}

pub proof fn lemma_attacks_after_shrinks(attacks: Seq<PlayerAttack>, dt: u32)
    ensures
        attacks_after(attacks, dt).len() <= attacks.len(),
        attacks_wf(attacks) ==> attacks_wf(attacks_after(attacks, dt)),
    decreases attacks.len(),
{
    if attacks.len() > 0 {
        lemma_attacks_after_shrinks(attacks.drop_last(), dt);
        if attacks_wf(attacks) {
            assert(attacks_wf(attacks.drop_last()));
        }
    }
}

fn count_down_exec(t: u64, dt: u32) -> (r: u64)
    ensures
        r == count_down(t, dt),
{
    if t > dt as u64 {
        t - dt as u64
    } else {
        0
    }
}

/// Counts every attack's timer down by `dt` and removes those that expire.
pub fn remove_player_attacks(attacks: &mut Vec<PlayerAttack>, dt: u32)
    requires
        attacks_wf(old(attacks)@),
    ensures
        attacks_wf(final(attacks)@),
        final(attacks)@ == attacks_after(old(attacks)@, dt),
{
    let mut kept: Vec<PlayerAttack> = Vec::new();
    let mut i: usize = 0;
    while i < attacks.len()
        invariant
            i <= attacks@.len(),
            attacks@ == old(attacks)@,
            attacks_wf(attacks@),
            kept@ == attacks_after(attacks@.take(i as int), dt),
        decreases attacks@.len() - i,
    {
        assert(attacks@.take(i as int + 1).drop_last() =~= attacks@.take(i as int));
        let attack = attacks[i];
        let left = count_down_exec(attack.active_timer, dt);
        if left != 0 {
            kept.push(PlayerAttack { body: attack.body, active_timer: left });
        }
        i = i + 1;
    }
    assert(attacks@.take(attacks@.len() as int) =~= attacks@);
    proof {
        lemma_attacks_after_shrinks(attacks@, dt);
    }
    *attacks = kept;
}

/// Counts the player's attack cooldown down by `dt`.
pub fn cooldown_player_attack_timer(player: &mut Player, dt: u32)
    ensures
        *final(player) == (Player {
            player_attack_cooldown_timer: count_down(old(player).player_attack_cooldown_timer, dt),
            ..*old(player)
        }),
{
    player.player_attack_cooldown_timer = count_down_exec(player.player_attack_cooldown_timer, dt);
}

} // verus!
