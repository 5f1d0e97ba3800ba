//! Coins and the score they make.
use vstd::prelude::*;
use crate::geometry::{Aabb, PIXEL};
use crate::player::Player;
use crate::walls::LEVEL_LIMIT;

verus! {

/// Half of a coin's ten-pixel side.
pub const COIN_HALF_SIZE: i64 = 5 * PIXEL;

#[derive(Clone, Copy, Debug, PartialEq, Eq, Structural)]
pub struct Coin {
    pub body: Aabb,
}

/// Coins picked up so far.
#[derive(Clone, Copy, Debug, PartialEq, Eq, Structural)]
pub struct Score(pub usize);

pub open spec fn coins_wf(coins: Seq<Coin>) -> bool {
    forall|i: int| 0 <= i < coins.len() ==> (#[trigger] coins[i]).body.wf()
}

/// A coin ten pixels square at `(x_position, y_position)`.
pub fn spawn_coin(x_position: i64, y_position: i64) -> (r: Coin)
    requires
        -LEVEL_LIMIT <= x_position <= LEVEL_LIMIT,
        -LEVEL_LIMIT <= y_position <= LEVEL_LIMIT,
    ensures
        r.body.wf(),
        r == (Coin {
            body: Aabb {
                center_x: x_position,
                center_y: y_position,
                half_x: COIN_HALF_SIZE,
                half_y: COIN_HALF_SIZE,
            },
        }),
{
    Coin { body: Aabb::new(x_position, y_position, COIN_HALF_SIZE, COIN_HALF_SIZE) }
}

/// The coin that lies at `(x, y)` in whole pixels.
pub open spec fn coin_at(x: int, y: int) -> Coin {
    Coin {
        body: Aabb {
            center_x: (x * PIXEL) as i64,
            center_y: (y * PIXEL) as i64,
            half_x: COIN_HALF_SIZE,
            half_y: COIN_HALF_SIZE,
        },
    }
}

/// The level's coins, at their places in whole pixels.
pub open spec fn level_coins() -> Seq<Coin> {
    seq![coin_at(80, 80), coin_at(120, 120), coin_at(250, 340), coin_at(440, 440), coin_at(80, 440)]
}

/// The five coins of the level.
pub fn spawn_coins() -> (r: Vec<Coin>)
    ensures
        coins_wf(r@),
        r@ == level_coins(),
{
    let mut r: Vec<Coin> = Vec::new();
    r.push(spawn_coin(80 * PIXEL, 80 * PIXEL));
    r.push(spawn_coin(120 * PIXEL, 120 * PIXEL));
    r.push(spawn_coin(250 * PIXEL, 340 * PIXEL));
    r.push(spawn_coin(440 * PIXEL, 440 * PIXEL));
    r.push(spawn_coin(80 * PIXEL, 440 * PIXEL));
    r
}

/// The coins, in order, that `body` does not overlap.
pub open spec fn coins_left(coins: Seq<Coin>, body: Aabb) -> Seq<Coin>
    decreases coins.len(),
{
    if coins.len() == 0 {
        coins
    } else {
        let kept = coins_left(coins.drop_last(), body);
        if coins.last().body.overlaps(body) {
            kept
        } else {
            kept.push(coins.last())
        }
    }
}

pub proof fn lemma_coins_left_shrinks(coins: Seq<Coin>, body: Aabb)
    ensures
        coins_left(coins, body).len() <= coins.len(),
        coins_wf(coins) ==> coins_wf(coins_left(coins, body)),
    decreases coins.len(),
{
    if coins.len() > 0 {
        lemma_coins_left_shrinks(coins.drop_last(), body);
        if coins_wf(coins) {
            assert(coins_wf(coins.drop_last()));
        }
    }
}

/// Whether a coin lies under `body`.
pub open spec fn under(body: Aabb) -> spec_fn(Coin) -> bool {
    |c: Coin| c.body.overlaps(body)
}

/// Whether a coin lies clear of `body`.
pub open spec fn clear_of(body: Aabb) -> spec_fn(Coin) -> bool {
    |c: Coin| !c.body.overlaps(body)
}

/// The coins left are those clear of `body`, and with those under it they
/// make up all the coins.
pub proof fn lemma_coins_left_is_filter(coins: Seq<Coin>, body: Aabb)
    ensures
        coins_left(coins, body) == coins.filter(clear_of(body)),
        coins.filter(clear_of(body)).len() + coins.filter(under(body)).len() == coins.len(),
    decreases coins.len(),
{
    reveal(Seq::filter);
    if coins.len() > 0 {
        lemma_coins_left_is_filter(coins.drop_last(), body);
    }
}

/// Picks up every coin the player overlaps: each such coin leaves the
/// level and adds one to the score. Returns how many were picked up.
pub fn check_for_player_collisions_with_coins(
    score: &mut Score,
    player: &Player,
    coins: &mut Vec<Coin>,
) -> (collected: usize)
    requires
        player.wf(),
        coins_wf(old(coins)@),
        old(score).0 + old(coins)@.len() <= usize::MAX,
    ensures
        coins_wf(final(coins)@),
        final(coins)@ == coins_left(old(coins)@, player.body),
        final(coins)@ == old(coins)@.filter(clear_of(player.body)),
        collected == old(coins)@.filter(under(player.body)).len(),
        collected == old(coins)@.len() - final(coins)@.len(),
        final(score).0 == old(score).0 + collected,
        final(score).0 >= old(score).0,
{
    let mut kept: Vec<Coin> = Vec::new();
    let mut collected: usize = 0;
    let mut i: usize = 0;
    while i < coins.len()
        invariant
            i <= coins@.len(),
            coins@ == old(coins)@,
            player.wf(),
            coins_wf(coins@),
            kept@ == coins_left(coins@.take(i as int), player.body),
            collected + kept@.len() == i,
        decreases coins@.len() - i,
    {
        assert(coins@.take(i as int + 1).drop_last() =~= coins@.take(i as int));
        let coin = coins[i];
        if coin.body.intersects(&player.body) {
            collected = collected + 1;
        } else {
            kept.push(coin);
        }
        i = i + 1;
    }
    assert(coins@.take(coins@.len() as int) =~= coins@);
    proof {
        lemma_coins_left_shrinks(coins@, player.body);
        lemma_coins_left_is_filter(coins@, player.body);
    }
    *coins = kept;
    score.0 = score.0 + collected;
    collected
}

} // verus!
