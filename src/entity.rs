use vstd::prelude::*;

verus! {

/// Micro-units in one screen unit.
pub const UNIT: i64 = 1_000_000;

/// Half the footprint of a segment or a coin: the collision half-width, and
/// the offset from the cursor's hotspot to the point the chain follows.
pub const HALF_EXTENT: i64 = 32 * UNIT;

/// A segment only moves while its target is farther than this on some axis.
pub const MIN_DISTANCE: i64 = 16 * UNIT;

/// Travel per axis, in micro-units per microsecond (64 screen units a second).
pub const MOVE_SPEED: i64 = 64;

/// Turn rate, in micro-radians per microsecond (4 radians a second).
pub const ROTATION_SPEED: i64 = 4;

/// What picking up a coin does.
#[derive(Clone, Copy, Debug, PartialEq, Eq, Structural)]
pub enum CoinKind {
    /// Adds one to the number of coins in each new batch.
    Beneficial,
    /// Takes the last segment off the chain.
    Harmful,
}

/// A coin lying in the play area.
#[derive(Clone, Copy, Debug, PartialEq, Eq, Structural)]
pub struct Coin {
    pub kind: CoinKind,
    pub x: i64,
    pub y: i64,
}

/// One link of the follower chain.
#[derive(Clone, Copy, Debug, PartialEq, Eq, Structural)]
pub struct Segment {
    pub x: i64,
    pub y: i64,
    /// Angle in micro-radians.
    pub rotation: i64,
    /// Uniform scale in thousandths.
    pub scale: u32,
}

/// `v` held to the range of `i64`.
pub open spec fn clamp(v: int) -> int {
    if v > i64::MAX {
        i64::MAX as int
    } else if v < i64::MIN {
        i64::MIN as int
    } else {
        v
    }
}

pub open spec fn abs(v: int) -> int {
    if v < 0 {
        -v
    } else {
        v
    }
}

/// The head at `(hx, hy)` overlaps the coin: closer than the half-width on
/// both axes, the boundary excluded.
pub open spec fn overlaps(coin: Coin, hx: int, hy: int) -> bool {
    abs(coin.x - hx) < HALF_EXTENT && abs(coin.y - hy) < HALF_EXTENT
}

/// A coin lies where a batch may place it.
pub open spec fn in_play_area(coin: Coin) -> bool {
    64 * UNIT <= coin.x < 736 * UNIT && 64 * UNIT <= coin.y < 536 * UNIT
}

/// One axis of a move toward `target`: forward when the target is greater,
/// backward otherwise.
pub open spec fn approach(pos: int, target: int, dt: nat) -> int {
    if target > pos {
        clamp(pos + MOVE_SPEED * dt)
    } else {
        clamp(pos - MOVE_SPEED * dt)
    }
}

/// The target is beyond the follow distance on at least one axis.
pub open spec fn out_of_reach(seg: Segment, tx: int, ty: int) -> bool {
    abs(tx - seg.x) > MIN_DISTANCE || abs(ty - seg.y) > MIN_DISTANCE
}

/// A segment after one step toward `(tx, ty)`: it moves on both axes while the
/// target is out of reach, and turns in any case.
pub open spec fn follow_one(seg: Segment, tx: int, ty: int, dt: nat) -> Segment {
    let moved = out_of_reach(seg, tx, ty);
    Segment {
        x: if moved { approach(seg.x as int, tx, dt) as i64 } else { seg.x },
        y: if moved { approach(seg.y as int, ty, dt) as i64 } else { seg.y },
        rotation: clamp(seg.rotation + ROTATION_SPEED * dt) as i64,
        scale: seg.scale,
    }
}

/// The result of `v` clamped to `i64`.
pub fn clamp_i128(v: i128) -> (r: i64)
    ensures
        r == clamp(v as int),
{
    if v > i64::MAX as i128 {
        i64::MAX
    } else if v < i64::MIN as i128 {
        i64::MIN
    } else {
        v as i64
    }
}

impl Coin {
    /// Whether a head at `(hx, hy)` touches this coin.
    pub fn overlaps(&self, hx: i64, hy: i64) -> (r: bool)
        ensures
            r == overlaps(*self, hx as int, hy as int),
    {
        let dx = self.x as i128 - hx as i128;
        let dy = self.y as i128 - hy as i128;
        let adx = if dx < 0 { -dx } else { dx };
        let ady = if dy < 0 { -dy } else { dy };
        adx < HALF_EXTENT as i128 && ady < HALF_EXTENT as i128
    }
}

fn approach_exec(pos: i64, target: i128, dt: u64) -> (r: i64)
    requires
        i64::MIN - HALF_EXTENT <= target <= i64::MAX,
    ensures
        r == approach(pos as int, target as int, dt as nat),
{
    let d = MOVE_SPEED as i128 * dt as i128;
    assert(0 <= d <= u64::MAX * 64) by (nonlinear_arith)
        requires
            d == MOVE_SPEED * dt,
            MOVE_SPEED == 64,
            dt <= u64::MAX,
    ;
    if target > pos as i128 {
        clamp_i128(pos as i128 + d)
    } else {
        clamp_i128(pos as i128 - d)
    }
}

impl Segment {
    /// Moves the segment one step toward `(tx, ty)` and turns it.
    pub fn follow(&mut self, tx: i128, ty: i128, dt: u64)
        requires
            i64::MIN - HALF_EXTENT <= tx <= i64::MAX,
            i64::MIN - HALF_EXTENT <= ty <= i64::MAX,
        ensures
            *final(self) == follow_one(*old(self), tx as int, ty as int, dt as nat),
    {
        let dx = tx - self.x as i128;
        let dy = ty - self.y as i128;
        let adx = if dx < 0 { -dx } else { dx };
        let ady = if dy < 0 { -dy } else { dy };
        if adx > MIN_DISTANCE as i128 || ady > MIN_DISTANCE as i128 {
            self.x = approach_exec(self.x, tx, dt);
            self.y = approach_exec(self.y, ty, dt);
        }
        self.rotation = clamp_i128(self.rotation as i128 + ROTATION_SPEED as i128 * dt as i128);
    }
}

} // verus!
