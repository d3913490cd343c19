use vstd::prelude::*;

use crate::entity::{
    follow_one, in_play_area, overlaps, Coin, CoinKind, Segment, HALF_EXTENT, UNIT,
};
use crate::random::random_between;
use crate::status::Status;

verus! {

/// Everything the game keeps between frames.
pub struct State {
    /// Latest pointer position.
    pub cursor_x: i64,
    pub cursor_y: i64,
    /// The follower chain, head first.
    pub player: Vec<Segment>,
    /// The coins of the current batch, in scan order.
    pub coins: Vec<Coin>,
    /// How many coins the next batch holds.
    pub spawn_rate: usize,
    /// Coins picked up so far, of either kind.
    pub collected: u64,
    pub status: Status,
}

/// The first coin at index `i` or later that a head at `(hx, hy)` overlaps.
pub open spec fn first_hit_from(coins: Seq<Coin>, hx: int, hy: int, i: int) -> Option<int>
    decreases coins.len() - i,
{
    if i < 0 || i >= coins.len() {
        None
    } else if overlaps(coins[i], hx, hy) {
        Some(i)
    } else {
        first_hit_from(coins, hx, hy, i + 1)
    }
}

/// The first coin in scan order that a head at `(hx, hy)` overlaps.
pub open spec fn first_hit(coins: Seq<Coin>, hx: int, hy: int) -> Option<int> {
    first_hit_from(coins, hx, hy, 0)
}

/// Where segment `i` of the chain heads for: the chain's target for the head,
/// and the new place of segment `i - 1` for the others.
pub open spec fn chain_target(segs: Seq<Segment>, tx: int, ty: int, dt: nat, i: nat) -> (int, int)
    decreases i,
{
    if i == 0 || i > segs.len() {
        (tx, ty)
    } else {
        let (px, py) = chain_target(segs, tx, ty, dt, (i - 1) as nat);
        let prev = follow_one(segs[i - 1], px, py, dt);
        (prev.x as int, prev.y as int)
    }
}

/// The chain after one step of follow-the-leader toward `(tx, ty)`.
pub open spec fn follow_chain(segs: Seq<Segment>, tx: int, ty: int, dt: nat) -> Seq<Segment> {
    Seq::new(
        segs.len(),
        |i: int|
            follow_one(
                segs[i],
                chain_target(segs, tx, ty, dt, i as nat).0,
                chain_target(segs, tx, ty, dt, i as nat).1,
                dt,
            ),
    )
}

/// The chain after a pickup: a harmful coin takes off the last segment.
pub open spec fn chain_after_pickup(player: Seq<Segment>, kind: CoinKind) -> Seq<Segment> {
    if kind == CoinKind::Harmful && player.len() > 0 {
        player.drop_last()
    } else {
        player
    }
}

/// The spawn rate after a pickup: a beneficial coin adds one.
pub open spec fn rate_after_pickup(rate: int, kind: CoinKind) -> int {
    if kind == CoinKind::Beneficial {
        rate + 1
    } else {
        rate
    }
}

pub open spec fn pickup_status(kind: CoinKind) -> Status {
    match kind {
        CoinKind::Beneficial => Status::MoreCoins,
        CoinKind::Harmful => Status::Ouch,
    }
}

impl State {
    /// The game is over: no segment is left.
    pub open spec fn over(&self) -> bool {
        self.player@.len() == 0
    }

    /// The point the head follows: the cursor, moved back by half a footprint.
    pub open spec fn target(&self) -> (int, int) {
        (self.cursor_x - HALF_EXTENT, self.cursor_y - HALF_EXTENT)
    }

    /// The kind of coin the next update picks up, if any.
    pub open spec fn next_pickup(&self) -> Option<CoinKind> {
        if self.over() {
            None
        } else {
            match first_hit(self.coins@, self.player@[0].x as int, self.player@[0].y as int) {
                Some(i) => Some(self.coins@[i].kind),
                None => None,
            }
        }
    }

    /// The chain after the next update.
    pub open spec fn next_player(&self, dt: nat) -> Seq<Segment> {
        let chain = match self.next_pickup() {
            Some(kind) => chain_after_pickup(self.player@, kind),
            None => self.player@,
        };
        follow_chain(chain, self.target().0, self.target().1, dt)
    }

    /// The spawn rate after the next update.
    pub open spec fn next_spawn_rate(&self) -> int {
        match self.next_pickup() {
            Some(kind) => rate_after_pickup(self.spawn_rate as int, kind),
            None => self.spawn_rate as int,
        }
    }

    /// The count of collected coins after the next update.
    pub open spec fn next_collected(&self) -> int {
        match self.next_pickup() {
            Some(_) => self.collected + 1,
            None => self.collected as int,
        }
    }

    /// The message after the next update.
    pub open spec fn next_status(&self) -> Status {
        if self.over() {
            Status::GameOver(self.collected)
        } else {
            match self.next_pickup() {
                Some(kind) => pickup_status(kind),
                None => self.status,
            }
        }
    }

    /// The counters can take one more pickup without overflow.
    pub open spec fn can_count(&self) -> bool {
        self.collected < u64::MAX && self.spawn_rate < usize::MAX
    }
}

/// Index of the first coin in `coins` that a head at `(hx, hy)` overlaps.
pub fn first_collision(coins: &Vec<Coin>, hx: i64, hy: i64) -> (r: Option<usize>)
    ensures
        match r {
            Some(i) => i < coins@.len() && first_hit(coins@, hx as int, hy as int) == Some(
                i as int,
            ),
            None => first_hit(coins@, hx as int, hy as int) is None,
        },
{
    let mut i: usize = 0;
    while i < coins.len()
        invariant
            i <= coins@.len(),
            first_hit_from(coins@, hx as int, hy as int, 0) == first_hit_from(
                coins@,
                hx as int,
                hy as int,
                i as int,
            ),
        decreases coins@.len() - i,
    {
        if coins[i].overlaps(hx, hy) {
            return Some(i);
        }
        i += 1;
    }
    None
}

/// Moves every segment of the chain one step: the head toward the point half
/// a footprint back from the cursor, each other segment toward the new place
/// of the one before it.
pub fn follow_chain_step(player: &mut Vec<Segment>, cursor_x: i64, cursor_y: i64, dt: u64)
    ensures
        final(player)@ == follow_chain(
            old(player)@,
            cursor_x - HALF_EXTENT,
            cursor_y - HALF_EXTENT,
            dt as nat,
        ),
{
    let ghost segs = old(player)@;
    let ghost (t0x, t0y) = (cursor_x - HALF_EXTENT, cursor_y - HALF_EXTENT);
    let mut gx: i128 = cursor_x as i128 - HALF_EXTENT as i128;
    let mut gy: i128 = cursor_y as i128 - HALF_EXTENT as i128;
    let n = player.len();
    let mut i: usize = 0;
    while i < n
        invariant
            n == segs.len(),
            player@.len() == n,
            i <= n,
            i64::MIN - HALF_EXTENT <= gx <= i64::MAX,
            i64::MIN - HALF_EXTENT <= gy <= i64::MAX,
            (gx as int, gy as int) == chain_target(segs, t0x, t0y, dt as nat, i as nat),
            forall|j: int| 0 <= j < i ==> player@[j] == follow_chain(segs, t0x, t0y, dt as nat)[j],
            forall|j: int| i <= j < n ==> player@[j] == segs[j],
        decreases n - i,
    {
        let mut seg = player[i];
        seg.follow(gx, gy, dt);
        player.set(i, seg);
        gx = seg.x as i128;
        gy = seg.y as i128;
        i += 1;
    }
    assert(player@ =~= follow_chain(segs, t0x, t0y, dt as nat));
}

/// A coin from three draws: its place, and a pick that selects the
/// beneficial kind when it is zero and the harmful kind otherwise.
pub fn spawn_coin(x: i64, y: i64, pick: i64) -> (r: Coin)
    ensures
        r == (Coin {
            kind: if pick == 0 { CoinKind::Beneficial } else { CoinKind::Harmful },
            x,
            y,
        }),
{
    let kind = if pick == 0 { CoinKind::Beneficial } else { CoinKind::Harmful };
    Coin { kind, x, y }
}

/// A fresh batch of `count` coins at random places in the play area, each of a
/// kind drawn with even odds.
pub fn spawn_batch(count: usize) -> (r: Vec<Coin>)
    ensures
        r@.len() == count,
        forall|i: int| 0 <= i < r@.len() ==> in_play_area(#[trigger] r@[i]),
{
    let mut batch: Vec<Coin> = Vec::new();
    let mut i: usize = 0;
    while i < count
        invariant
            i <= count,
            batch@.len() == i,
            forall|j: int| 0 <= j < batch@.len() ==> in_play_area(#[trigger] batch@[j]),
        decreases count - i,
    {
        let x = random_between(64 * UNIT, 736 * UNIT);
        let y = random_between(64 * UNIT, 536 * UNIT);
        let pick = random_between(0, 2);
        batch.push(spawn_coin(x, y, pick));
        i += 1;
    }
    batch
}

/// The chain a game starts with: three segments at the same spot, each a
/// tenth smaller than the one before, turned by the given angles.
pub open spec fn starting_chain(r0: i64, r1: i64, r2: i64) -> Seq<Segment> {
    seq![
        Segment { x: START_POS, y: START_POS, rotation: r0, scale: 1000 },
        Segment { x: START_POS, y: START_POS, rotation: r1, scale: 900 },
        Segment { x: START_POS, y: START_POS, rotation: r2, scale: 810 },
    ]
}

/// The single beneficial coin a game starts with.
pub open spec fn starting_coin() -> Coin {
    Coin { kind: CoinKind::Beneficial, x: START_COIN_X, y: START_POS }
}

/// Where the chain starts, on both axes.
pub const START_POS: i64 = 64 * UNIT;

/// Where the first coin lies across; it lies level with the chain.
pub const START_COIN_X: i64 = 300 * UNIT;

/// Starting angles are drawn below this many micro-radians.
pub const MAX_START_ROTATION: i64 = 360 * UNIT;

impl State {
    /// A new game with the cursor at `(cursor_x, cursor_y)` and the chain's
    /// segments turned by `r0`, `r1` and `r2`.
    pub fn start(cursor_x: i64, cursor_y: i64, r0: i64, r1: i64, r2: i64) -> (r: State)
        ensures
            r.cursor_x == cursor_x,
            r.cursor_y == cursor_y,
            r.player@ == starting_chain(r0, r1, r2),
            r.coins@ == seq![starting_coin()],
            r.spawn_rate == 1,
            r.collected == 0,
            r.status == Status::Welcome,
    {
        let mut player: Vec<Segment> = Vec::new();
        player.push(Segment { x: START_POS, y: START_POS, rotation: r0, scale: 1000 });
        player.push(Segment { x: START_POS, y: START_POS, rotation: r1, scale: 900 });
        player.push(Segment { x: START_POS, y: START_POS, rotation: r2, scale: 810 });
        let mut coins: Vec<Coin> = Vec::new();
        coins.push(Coin { kind: CoinKind::Beneficial, x: START_COIN_X, y: START_POS });
        assert(player@ =~= starting_chain(r0, r1, r2));
        assert(coins@ =~= seq![starting_coin()]);
        State {
            cursor_x,
            cursor_y,
            player,
            coins,
            spawn_rate: 1,
            collected: 0,
            status: Status::Welcome,
        }
    }

    /// A new game with the cursor at `(cursor_x, cursor_y)` and random
    /// starting angles.
    pub fn new(cursor_x: i64, cursor_y: i64) -> (r: State)
        ensures
            exists|r0: i64, r1: i64, r2: i64|
                0 <= r0 < MAX_START_ROTATION && 0 <= r1 < MAX_START_ROTATION && 0 <= r2
                    < MAX_START_ROTATION && r.player@ == starting_chain(r0, r1, r2),
            r.cursor_x == cursor_x,
            r.cursor_y == cursor_y,
            r.coins@ == seq![starting_coin()],
            r.spawn_rate == 1,
            r.collected == 0,
            r.status == Status::Welcome,
    {
        let r0 = random_between(0, MAX_START_ROTATION);
        let r1 = random_between(0, MAX_START_ROTATION);
        let r2 = random_between(0, MAX_START_ROTATION);
        State::start(cursor_x, cursor_y, r0, r1, r2)
    }

    /// Records a new pointer position.
    pub fn set_cursor(&mut self, x: i64, y: i64)
        ensures
            *final(self) == (State { cursor_x: x, cursor_y: y, ..*old(self) }),
    {
        self.cursor_x = x;
        self.cursor_y = y;
    }

    /// Whether no segment is left.
    pub fn is_over(&self) -> (r: bool)
        ensures
            r == self.over(),
    {
        self.player.len() == 0
    }

    /// Whether the counters can take one more pickup.
    pub fn has_headroom(&self) -> (r: bool)
        ensures
            r == self.can_count(),
    {
        self.collected < u64::MAX && self.spawn_rate < usize::MAX
    }

    /// Picks up a coin of the given kind: counts it, applies its effect, and
    /// replaces all coins by a fresh batch of `spawn_rate` coins.
    pub fn collect_coin(&mut self, kind: CoinKind)
        requires
            old(self).can_count(),
        ensures
            final(self).collected == old(self).collected + 1,
            final(self).spawn_rate == rate_after_pickup(old(self).spawn_rate as int, kind),
            final(self).player@ == chain_after_pickup(old(self).player@, kind),
            final(self).status == pickup_status(kind),
            final(self).cursor_x == old(self).cursor_x,
            final(self).cursor_y == old(self).cursor_y,
            final(self).coins@.len() == final(self).spawn_rate,
            forall|i: int|
                0 <= i < final(self).coins@.len() ==> in_play_area(#[trigger] final(self).coins@[i]),
    {
        self.collected = self.collected + 1;
        match kind {
            CoinKind::Beneficial => {
                self.spawn_rate = self.spawn_rate + 1;
                self.status = Status::MoreCoins;
            },
            CoinKind::Harmful => {
                self.player.pop();
                self.status = Status::Ouch;
            },
        }
        self.coins = spawn_batch(self.spawn_rate);
    }

    /// One frame of the game, `dt` microseconds after the last one.
    ///
    /// While the chain lasts, the head picks up the first coin it overlaps,
    /// if any, and then the chain follows the cursor. Once the chain is gone
    /// only the game-over message is set.
    pub fn update(&mut self, dt: u64)
        requires
            old(self).can_count(),
        ensures
            final(self).player@ == old(self).next_player(dt as nat),
            final(self).spawn_rate == old(self).next_spawn_rate(),
            final(self).collected == old(self).next_collected(),
            final(self).status == old(self).next_status(),
            final(self).cursor_x == old(self).cursor_x,
            final(self).cursor_y == old(self).cursor_y,
            old(self).next_pickup() is None ==> final(self).coins@ == old(self).coins@,
            old(self).next_pickup() is Some ==> final(self).coins@.len() == final(self).spawn_rate,
            forall|i: int|
                0 <= i < final(self).coins@.len() && old(self).next_pickup() is Some
                    ==> in_play_area(#[trigger] final(self).coins@[i]),
    {
        if self.player.len() > 0 {
            let hx = self.player[0].x;
            let hy = self.player[0].y;
            match first_collision(&self.coins, hx, hy) {
                Some(i) => {
                    let kind = self.coins[i].kind;
                    self.collect_coin(kind);
                },
                None => {},
            }
            follow_chain_step(&mut self.player, self.cursor_x, self.cursor_y, dt);
        } else {
            self.status = Status::GameOver(self.collected);
        }
    }
}

} // verus!
