//! Properties of the collision resolver, the steering policy and runs of
//! ticks, stated over the specifications the functions meet.
use vstd::prelude::*;
use crate::coins::{
    coins_left, lemma_coins_left_is_filter, lemma_coins_left_shrinks, under, Coin,
};
use crate::collider::{collision_side, offset_from, Collision};
use crate::enemy::{settles_on, steer_spec, tier_accepts, tier_choice, Direction, Enemy};
use crate::geometry::{abs, signed, Aabb, COORD_LIMIT};
use crate::player::{player_moved, travel, Input, Player, PLAYER_SPEED};
use crate::walls::{collides_with, lemma_wall_hits_are_collisions};
use crate::player_attack::{attacks_after, lemma_attacks_after_shrinks};
use crate::world::{after_enemy_stages, enemies_stepped, tick_outcome, TickReport, World};

verus! {

/// Overlap does not depend on the order of the boxes.
pub proof fn lemma_intersects_symmetric(a: Aabb, b: Aabb)
    ensures
        a.overlaps(b) == b.overlaps(a),
{
}

/// Boxes that do not overlap never produce a collision.
pub proof fn lemma_no_overlap_no_collision(moving: Aabb, wall: Aabb)
    requires
        !moving.overlaps(wall),
    ensures
        collision_side(moving, wall) is None,
{
}

/// When the centre's offset from the nearest point of the wall is as long on
/// both axes, the vertical side is reported: Top when the offset points up,
/// else Bottom.
pub proof fn lemma_tie_goes_vertical(moving: Aabb, wall: Aabb)
    requires
        moving.overlaps(wall),
        abs(offset_from(moving, wall).0) == abs(offset_from(moving, wall).1),
    ensures
        collision_side(moving, wall) == Some(
            if offset_from(moving, wall).1 > 0 {
                Collision::Top
            } else {
                Collision::Bottom
            },
        ),
{
}

/// The third retry tier takes every heading, so steering after a wall hit
/// always settles within three rolls, on a heading that the tier which
/// settled it accepts.
pub proof fn lemma_steering_settles(side: Collision, first: u8, second: u8, third: u8)
    ensures
        forall|d: Direction| tier_accepts(3, side, d),
        exists|tier: int|
            1 <= tier <= 3 && #[trigger] tier_accepts(tier, side, steer_spec(side, first, second, third)),
{
    assert(tier_accepts(3, side, steer_spec(side, first, second, third)));
}

/// The rolls decide the heading: two runs of the retry tiers on the same
/// rolls after the same hit settle on the same heading, the one that `steer`
/// computes from those rolls (rolls never drawn do not matter).
pub proof fn lemma_rolls_decide_heading(
    side: Collision,
    rolls: Seq<u8>,
    d: Direction,
    e: Direction,
    second: u8,
    third: u8,
)
    requires
        settles_on(side, rolls, d),
        settles_on(side, rolls, e),
    ensures
        d == e,
        d == steer_spec(
            side,
            rolls[0],
            if rolls.len() > 1 {
                rolls[1]
            } else {
                second
            },
            if rolls.len() > 2 {
                rolls[2]
            } else {
                third
            },
        ),
{
    if rolls.len() > 1 {
        assert(tier_choice(1, side, rolls[0]) is None);
    }
    if rolls.len() > 2 {
        assert(tier_choice(2, side, rolls[1]) is None);
    }
}

/// Every three rolls of 0 to 3 hold a run of the retry tiers that settles:
/// the first roll if the first tier takes it, else the first two if the
/// second tier takes the second, else all three.
pub proof fn lemma_three_rolls_settle(side: Collision, rolls: Seq<u8>)
    requires
        rolls.len() == 3,
        forall|k: int| 0 <= k < 3 ==> #[trigger] rolls[k] < 4,
    ensures
        exists|n: int|
            1 <= n <= 3 && #[trigger] settles_on(
                side,
                rolls.take(n),
                steer_spec(side, rolls[0], rolls[1], rolls[2]),
            ),
{
    let d = steer_spec(side, rolls[0], rolls[1], rolls[2]);
    assert(rolls[0] < 4 && rolls[1] < 4 && rolls[2] < 4);
    if tier_accepts(1, side, Direction::of_roll(rolls[0])) {
        assert(settles_on(side, rolls.take(1), d));
    } else if tier_accepts(2, side, Direction::of_roll(rolls[1])) {
        assert(settles_on(side, rolls.take(2), d));
    } else {
        assert(rolls.take(3) =~= rolls);
        assert(settles_on(side, rolls.take(3), d));
    }
}

/// A coin is counted at most once: on the coins a pickup leaves, none lies
/// under the same box, so picking up again there changes nothing.
pub proof fn lemma_coins_counted_once(coins: Seq<Coin>, body: Aabb)
    ensures
        coins_left(coins, body).filter(under(body)).len() == 0,
        coins_left(coins_left(coins, body), body) == coins_left(coins, body),
    decreases coins.len(),
{
    let left = coins_left(coins, body);
    lemma_coins_left_is_filter(coins, body);
    lemma_coins_left_is_filter(left, body);
    lemma_coins_left_clear(coins, body);
    lemma_clear_coins_stay(left, body);
}

proof fn lemma_coins_left_clear(coins: Seq<Coin>, body: Aabb)
    ensures
        forall|i: int|
            0 <= i < coins_left(coins, body).len() ==> !(#[trigger] coins_left(coins, body)[i]).body.overlaps(body),
    decreases coins.len(),
{
    if coins.len() > 0 {
        lemma_coins_left_clear(coins.drop_last(), body);
        let kept = coins_left(coins.drop_last(), body);
        if !coins.last().body.overlaps(body) {
            assert forall|i: int| 0 <= i < kept.push(coins.last()).len() implies !(
            #[trigger] kept.push(coins.last())[i]).body.overlaps(body) by {
                if i < kept.len() {
                    assert(kept.push(coins.last())[i] == kept[i]);
                }
            }
        }
    }
}

proof fn lemma_clear_coins_stay(coins: Seq<Coin>, body: Aabb)
    requires
        forall|i: int| 0 <= i < coins.len() ==> !(#[trigger] coins[i]).body.overlaps(body),
    ensures
        coins_left(coins, body) == coins,
    decreases coins.len(),
{
    if coins.len() > 0 {
        let rest = coins.drop_last();
        assert forall|i: int| 0 <= i < rest.len() implies !(#[trigger] rest[i]).body.overlaps(body) by {
            assert(rest[i] == coins[i]);
        }
        lemma_clear_coins_stay(rest, body);
        assert(coins.last() == coins[coins.len() - 1]);
        assert(rest.push(coins.last()) =~= coins);
    }
}

/// A sequence of worlds, each reached from the one before by a tick on the
/// input, step and report at the same place.
pub open spec fn is_run(
    worlds: Seq<World>,
    inputs: Seq<Input>,
    dts: Seq<u32>,
    reports: Seq<TickReport>,
) -> bool {
    &&& worlds.len() == inputs.len() + 1
    &&& dts.len() == inputs.len()
    &&& reports.len() == inputs.len()
    &&& forall|i: int|
        0 <= i < inputs.len() ==> tick_outcome(
            &worlds[i],
            &worlds[i + 1],
            #[trigger] inputs[i],
            dts[i],
            reports[i],
        )
}

proof fn lemma_tick_keeps_coin_count(old: &World, new: &World, input: Input, dt: u32, report: TickReport)
    requires
        tick_outcome(old, new, input, dt, report),
    ensures
        new.coins@.len() <= old.coins@.len(),
        old.score.0 <= new.score.0,
        new.score.0 + new.coins@.len() == old.score.0 + old.coins@.len(),
{
    lemma_coins_left_shrinks(old.coins@, new.player.body);
}

proof fn lemma_score_between(
    worlds: Seq<World>,
    inputs: Seq<Input>,
    dts: Seq<u32>,
    reports: Seq<TickReport>,
    i: int,
    j: int,
)
    requires
        is_run(worlds, inputs, dts, reports),
        0 <= i <= j < worlds.len(),
    ensures
        worlds[i].score.0 <= worlds[j].score.0,
        worlds[j].coins@.len() <= worlds[i].coins@.len(),
        worlds[j].score.0 + worlds[j].coins@.len() == worlds[i].score.0 + worlds[i].coins@.len(),
    decreases j - i,
{
    if i < j {
        lemma_score_between(worlds, inputs, dts, reports, i, j - 1);
        assert(tick_outcome(
            &worlds[j - 1],
            &worlds[j],
            inputs[j - 1],
            dts[j - 1],
            reports[j - 1],
        ));
        lemma_tick_keeps_coin_count(
            &worlds[j - 1],
            &worlds[j],
            inputs[j - 1],
            dts[j - 1],
            reports[j - 1],
        );
    }
}

/// Over any run of ticks the score never drops, coins only leave, and the
/// score grows by exactly the number of coins that left: each coin counts
/// once, when it is picked up.
pub proof fn lemma_score_monotonic(
    worlds: Seq<World>,
    inputs: Seq<Input>,
    dts: Seq<u32>,
    reports: Seq<TickReport>,
)
    requires
        is_run(worlds, inputs, dts, reports),
    ensures
        forall|i: int, j: int|
            0 <= i <= j < worlds.len() ==> {
                &&& (#[trigger] worlds[i]).score.0 <= (#[trigger] worlds[j]).score.0
                &&& worlds[j].coins@.len() <= worlds[i].coins@.len()
                &&& worlds[j].score.0 - worlds[i].score.0 == worlds[i].coins@.len()
                    - worlds[j].coins@.len()
            },
{
    assert forall|i: int, j: int| 0 <= i <= j < worlds.len() implies {
        &&& (#[trigger] worlds[i]).score.0 <= (#[trigger] worlds[j]).score.0
        &&& worlds[j].coins@.len() <= worlds[i].coins@.len()
        &&& worlds[j].score.0 - worlds[i].score.0 == worlds[i].coins@.len()
            - worlds[j].coins@.len()
    } by {
        lemma_score_between(worlds, inputs, dts, reports, i, j);
    }
}

/// One tick from a world whose player is dead: the player stays dead, where
/// it was, facing as it was; no attack is made, the existing ones only count
/// down; and no new death is signalled.
pub proof fn lemma_dead_player_tick(old: &World, new: &World, input: Input, dt: u32, report: TickReport)
    requires
        tick_outcome(old, new, input, dt, report),
        !old.player.alive,
    ensures
        !new.player.alive,
        new.player.body == old.player.body,
        new.player.player_facing_direction == old.player.player_facing_direction,
        new.attacks@ == attacks_after(old.attacks@, dt),
        new.attacks@.len() <= old.attacks@.len(),
        !report.player_died,
{
    let moved = choose|moved: Seq<Enemy>|
        enemies_stepped(old.enemies@, moved, old.walls@, dt) && #[trigger] after_enemy_stages(
            old,
            new,
            input,
            dt,
            report,
            moved,
        );
    assert(after_enemy_stages(old, new, input, dt, report, moved));
    lemma_attacks_after_shrinks(old.attacks@, dt);
}

proof fn lemma_dead_between(
    worlds: Seq<World>,
    inputs: Seq<Input>,
    dts: Seq<u32>,
    reports: Seq<TickReport>,
    i: int,
    j: int,
)
    requires
        is_run(worlds, inputs, dts, reports),
        0 <= i <= j < worlds.len(),
        !worlds[i].player.alive,
    ensures
        !worlds[j].player.alive,
        worlds[j].player.body == worlds[i].player.body,
        worlds[j].attacks@.len() <= worlds[i].attacks@.len(),
    decreases j - i,
{
    if i < j {
        lemma_dead_between(worlds, inputs, dts, reports, i, j - 1);
        assert(tick_outcome(
            &worlds[j - 1],
            &worlds[j],
            inputs[j - 1],
            dts[j - 1],
            reports[j - 1],
        ));
        lemma_dead_player_tick(&worlds[j - 1], &worlds[j], inputs[j - 1], dts[j - 1], reports[j - 1]);
    }
}

/// Death is terminal: from the first world of a run in which the player is
/// dead, it stays dead and does not move, and attacks never grow in number.
pub proof fn lemma_death_is_terminal(
    worlds: Seq<World>,
    inputs: Seq<Input>,
    dts: Seq<u32>,
    reports: Seq<TickReport>,
    i: int,
)
    requires
        is_run(worlds, inputs, dts, reports),
        0 <= i < worlds.len(),
        !worlds[i].player.alive,
    ensures
        forall|j: int|
            i <= j < worlds.len() ==> {
                &&& !(#[trigger] worlds[j]).player.alive
                &&& worlds[j].player.body == worlds[i].player.body
                &&& worlds[j].attacks@.len() <= worlds[i].attacks@.len()
            },
{
    assert forall|j: int| i <= j < worlds.len() implies {
        &&& !(#[trigger] worlds[j]).player.alive
        &&& worlds[j].player.body == worlds[i].player.body
        &&& worlds[j].attacks@.len() <= worlds[i].attacks@.len()
    } by {
        lemma_dead_between(worlds, inputs, dts, reports, i, j);
    }
}

/// Winning is not terminal: a tick that signals a win leaves the player
/// alive, and on the next tick it moves by its keys as before.
pub proof fn lemma_win_is_not_terminal(
    old: &World,
    new: &World,
    input: Input,
    dt: u32,
    report: TickReport,
    next: Input,
    next_dt: u32,
)
    requires
        tick_outcome(old, new, input, dt, report),
        report.won,
    ensures
        new.player.alive,
        player_moved(new.player, next, next_dt).body == new.player.body.moved(
            signed(next.intent_x(), travel(PLAYER_SPEED as int, next_dt)),
            signed(next.intent_y(), travel(PLAYER_SPEED as int, next_dt)),
        ),
{
}

/// Collision events follow a per-tick policy: a tick sends one event for
/// each wall that the moved live player collides with, for as long as the
/// overlap lasts, and none for a dead player.
pub proof fn lemma_collision_events_per_tick(
    old: &World,
    new: &World,
    input: Input,
    dt: u32,
    report: TickReport,
)
    requires
        tick_outcome(old, new, input, dt, report),
    ensures
        old.player.alive ==> report.wall_collisions == old.walls@.filter(
            collides_with(player_moved(old.player, input, dt).body),
        ).len(),
        !old.player.alive ==> report.wall_collisions == 0,
{
    lemma_wall_hits_are_collisions(player_moved(old.player, input, dt).body, old.walls@);
}

/// Standing on the finish area does not stop a live player: it stays alive
/// through its motion and moves by its keys, exactly so while the move stays
/// inside the playfield.
pub proof fn lemma_finish_does_not_stop_motion(p: Player, finish: Aabb, input: Input, dt: u32)
    requires
        p.alive,
        p.body.overlaps(finish),
    ensures
        player_moved(p, input, dt).alive,
        player_moved(p, input, dt).body == p.body.moved(
            signed(input.intent_x(), travel(PLAYER_SPEED as int, dt)),
            signed(input.intent_y(), travel(PLAYER_SPEED as int, dt)),
        ),
        -COORD_LIMIT + travel(PLAYER_SPEED as int, dt) <= p.body.center_x <= COORD_LIMIT - travel(
            PLAYER_SPEED as int,
            dt,
        ) ==> player_moved(p, input, dt).body.center_x == p.body.center_x + signed(
            input.intent_x(),
            travel(PLAYER_SPEED as int, dt),
        ),
        -COORD_LIMIT + travel(PLAYER_SPEED as int, dt) <= p.body.center_y <= COORD_LIMIT - travel(
            PLAYER_SPEED as int,
            dt,
        ) ==> player_moved(p, input, dt).body.center_y == p.body.center_y + signed(
            input.intent_y(),
            travel(PLAYER_SPEED as int, dt),
        ),
{
}

} // verus!
