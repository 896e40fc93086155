//! Plane vectors and clamping.
use vstd::prelude::*;

verus! {

/// A point or a direction in the plane, in fixed-point millionths.
#[derive(Clone, Copy, Debug, PartialEq, Eq, Structural)]
pub struct Vector2 {
    pub x: i64,
    pub y: i64,
}

/// Absolute value of an integer.
pub open spec fn abs(v: int) -> int {
    if v < 0 {
        -v
    } else {
        v
    }
}

/// `v` saturated into `[lo, hi]`: `lo` below it, `hi` above it, `v` itself otherwise.
pub open spec fn clamped(v: int, lo: int, hi: int) -> int {
    if v < lo {
        lo
    } else if v > hi {
        hi
    } else {
        v
    }
}

impl Vector2 {
    pub fn new(x: i64, y: i64) -> (r: Vector2)
        ensures
            r.x == x,
            r.y == y,
    {
        Vector2 { x, y }
    }

    /// The point `self + k * v`.
    pub fn add_scaled(self, v: Vector2, k: i64) -> (r: Vector2)
        requires
            i64::MIN <= v.x * k <= i64::MAX,
            i64::MIN <= v.y * k <= i64::MAX,
            i64::MIN <= self.x + v.x * k <= i64::MAX,
            i64::MIN <= self.y + v.y * k <= i64::MAX,
        ensures
            r.x == self.x + v.x * k,
            r.y == self.y + v.y * k,
    {
        Vector2 { x: self.x + v.x * k, y: self.y + v.y * k }
    }
}

/// Saturates `*value` into `[min, max]`, checking the lower bound first.
pub fn clamp(value: &mut i64, min: i64, max: i64)
    ensures
        *final(value) == clamped(*old(value) as int, min as int, max as int),
{
    if *value < min {
        *value = min;
    } else if *value > max {
        *value = max;
    }
}

} // verus!
