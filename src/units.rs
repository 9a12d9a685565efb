//! Fixed-point units shared by every system.
//!
//! Time is counted in ticks of `1 / TIME_UNITS_PER_SECOND` seconds. A
//! velocity is counted in `1 / VEL_UNITS_PER_WORLD_UNIT` world units per
//! second, and a position in `1 / POS_UNITS_PER_WORLD_UNIT` world units.
//! With these choices `position += velocity * dt` and
//! `velocity -= gravity * dt` hold exactly, with no rounding.
use vstd::prelude::*;

verus! {

/// Time units in one second.
pub const TIME_UNITS_PER_SECOND: i64 = 600;

/// Velocity units in one world unit per second.
pub const VEL_UNITS_PER_WORLD_UNIT: i64 = 600;

/// Position units in one world unit.
pub const POS_UNITS_PER_WORLD_UNIT: i64 = 360_000;

/// One simulation tick: 1/60 s.
pub const TICK: u32 = 10;

/// Largest magnitude of a stored coordinate; results beyond it saturate.
pub const COORD_LIMIT: i64 = 1_000_000_000_000_000;

/// A 2D vector of fixed-point integers (a position or a velocity).
#[derive(Clone, Copy, Debug, PartialEq, Eq, Structural)]
pub struct Vec2 {
    pub x: i64,
    pub y: i64,
}

/// `x` saturated into `[-COORD_LIMIT, COORD_LIMIT]`.
pub open spec fn clamp_coord(x: int) -> int {
    if x > COORD_LIMIT as int {
        COORD_LIMIT as int
    } else if x < -(COORD_LIMIT as int) {
        -(COORD_LIMIT as int)
    } else {
        x
    }
}

/// A coordinate within the representable range.
pub open spec fn coord_ok(x: int) -> bool {
    -(COORD_LIMIT as int) <= x <= COORD_LIMIT as int
}

impl Vec2 {
    pub open spec fn ok(self) -> bool {
        coord_ok(self.x as int) && coord_ok(self.y as int)
    }

    pub fn new(x: i64, y: i64) -> (r: Vec2)
        ensures
            r.x == x,
            r.y == y,
    {
        Vec2 { x, y }
    }
}

/// Saturates an intermediate result into a stored coordinate.
pub fn clamp(x: i128) -> (r: i64)
    ensures
        r as int == clamp_coord(x as int),
        coord_ok(r as int),
{
    if x > COORD_LIMIT as i128 {
        COORD_LIMIT
    } else if x < -(COORD_LIMIT as i128) {
        -COORD_LIMIT
    } else {
        x as i64
    }
}

/// `a + b * dt`, saturated.
pub open spec fn advance(a: int, b: int, dt: int) -> int {
    clamp_coord(a + b * dt)
}

/// Computes `advance(a, b, dt)` for coordinates in range.
pub fn advance_coord(a: i64, b: i64, dt: u32) -> (r: i64)
    requires
        coord_ok(a as int),
        coord_ok(b as int),
    ensures
        r as int == advance(a as int, b as int, dt as int),
        coord_ok(r as int),
{
    assert(-1_000_000_000_000_000 * 0x1_0000_0000 <= (b as int) * (dt as int) <= 1_000_000_000_000_000 * 0x1_0000_0000) by (nonlinear_arith)
        requires
            -1_000_000_000_000_000 <= b <= 1_000_000_000_000_000,
            0 <= dt < 0x1_0000_0000,
    ;
    let p: i128 = (b as i128) * (dt as i128);
    clamp(a as i128 + p)
}

} // verus!
