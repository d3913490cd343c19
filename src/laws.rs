use vstd::prelude::*;

use crate::entity::{
    abs, approach, clamp, follow_one, out_of_reach, overlaps, Coin, CoinKind, Segment, HALF_EXTENT,
    MOVE_SPEED, ROTATION_SPEED,
};
use crate::state::{chain_after_pickup, first_hit_from, follow_chain, State};

verus! {

proof fn lemma_first_hit_from_bounds(coins: Seq<Coin>, hx: int, hy: int, i: int)
    requires
        0 <= i,
    ensures
        first_hit_from(coins, hx, hy, i) matches Some(k) ==> i <= k < coins.len(),
    decreases coins.len() - i,
{
    if i < coins.len() && !overlaps(coins[i], hx, hy) {
        lemma_first_hit_from_bounds(coins, hx, hy, i + 1);
    }
}

/// An update never lengthens the chain: it loses exactly one segment when the
/// head picks up a harmful coin, and keeps its length otherwise.
pub proof fn chain_never_grows(s: State, dt: nat)
    ensures
        s.next_player(dt).len() <= s.player@.len(),
        s.next_player(dt).len() == if s.next_pickup() == Some(CoinKind::Harmful) {
            s.player@.len() - 1
        } else {
            s.player@.len() as int
        },
{
    if !s.over() {
        lemma_first_hit_from_bounds(s.coins@, s.player@[0].x as int, s.player@[0].y as int, 0);
    }
    let chain = match s.next_pickup() {
        Some(kind) => chain_after_pickup(s.player@, kind),
        None => s.player@,
    };
    assert(s.next_player(dt) == follow_chain(chain, s.target().0, s.target().1, dt));
}

/// An update never lowers the spawn rate.
pub proof fn spawn_rate_never_falls(s: State)
    ensures
        s.next_spawn_rate() >= s.spawn_rate,
{
}

/// A coin on the head's own spot is always picked up; one exactly a collision
/// half-width away along the horizontal axis never is.
pub proof fn collision_boundary(kind: CoinKind, hx: i64, hy: i64)
    requires
        i64::MIN + HALF_EXTENT <= hx <= i64::MAX - HALF_EXTENT,
    ensures
        overlaps(Coin { kind, x: hx, y: hy }, hx as int, hy as int),
        !overlaps(Coin { kind, x: (hx + HALF_EXTENT) as i64, y: hy }, hx as int, hy as int),
        !overlaps(Coin { kind, x: (hx - HALF_EXTENT) as i64, y: hy }, hx as int, hy as int),
{
}

/// A segment already within the follow distance of its target stays where it
/// is, and still turns by the full amount for the elapsed time.
pub proof fn settled_segment_only_turns(seg: Segment, tx: int, ty: int, dt: nat)
    requires
        !out_of_reach(seg, tx, ty),
    ensures
        follow_one(seg, tx, ty, dt).x == seg.x,
        follow_one(seg, tx, ty, dt).y == seg.y,
        follow_one(seg, tx, ty, dt).rotation == clamp(seg.rotation + ROTATION_SPEED * dt),
{
}

/// Every step turns each segment, as long as the angle has room to grow.
pub proof fn rotation_advances(seg: Segment, tx: int, ty: int, dt: nat)
    requires
        dt > 0,
        seg.rotation + ROTATION_SPEED * dt <= i64::MAX,
    ensures
        follow_one(seg, tx, ty, dt).rotation > seg.rotation,
{
}

/// Moving toward a target that is at least one step away on an axis closes
/// the distance on that axis by exactly one step, so a chasing segment comes
/// within the follow distance of a still target.
pub proof fn approach_closes_in(pos: i64, target: i64, dt: nat)
    requires
        target != pos,
        MOVE_SPEED * dt <= abs(target - pos),
    ensures
        abs(target - approach(pos as int, target as int, dt)) == abs(target - pos) - MOVE_SPEED
            * dt,
{
}

} // verus!
