//! Integer 2D geometry for the tool-window manager.
//!
//! Positions and extents are pairs of `i64` coordinates. Additions saturate
//! at the `i64` range, so every operation is total; the saturation point is
//! far beyond any screen coordinate.

use vstd::prelude::*;

verus! {

/// A 2D position, relative to the parent region's top-left corner.
#[derive(Clone, Copy, Debug, PartialEq, Eq, Structural)]
pub struct Pos2i {
    pub x: i64,
    pub y: i64,
}

/// A 2D extent (width and height) or displacement.
#[derive(Clone, Copy, Debug, PartialEq, Eq, Structural)]
pub struct Vec2i {
    pub x: i64,
    pub y: i64,
}

/// A pair of booleans, one per axis.
#[derive(Clone, Copy, Debug, PartialEq, Eq, Structural)]
pub struct Vec2bFlags {
    pub x: bool,
    pub y: bool,
}

impl Vec2bFlags {
    /// True if either axis is set.
    pub fn any(&self) -> (r: bool)
        ensures
            r == (self.x || self.y),
    {
        self.x || self.y
    }
}

/// `v` clamped into the closed interval `[lo, hi]` (with `lo <= hi`).
pub open spec fn spec_clamp(v: int, lo: int, hi: int) -> int {
    if v < lo {
        lo
    } else if v > hi {
        hi
    } else {
        v
    }
}

/// `v` brought back into the `i64` range by saturation.
pub open spec fn sat_i64(v: int) -> int {
    spec_clamp(v, i64::MIN as int, i64::MAX as int)
}

/// Saturating addition on `i64`.
pub fn sat_add(a: i64, b: i64) -> (r: i64)
    ensures
        r as int == sat_i64(a + b),
{
    if b >= 0 {
        if a <= i64::MAX - b {
            a + b
        } else {
            i64::MAX
        }
    } else {
        if a >= i64::MIN - b {
            a + b
        } else {
            i64::MIN
        }
    }
}

/// Saturating three-way combination `a + b - c` on `i64`.
pub fn sat_add_sub(a: i64, b: i64, c: i64) -> (r: i64)
    ensures
        r as int == sat_i64(a + b - c),
{
    let wide: i128 = a as i128 + b as i128 - c as i128;
    if wide > i64::MAX as i128 {
        i64::MAX
    } else if wide < i64::MIN as i128 {
        i64::MIN
    } else {
        wide as i64
    }
}

/// `v` clamped into `[0, hi]` for a non-negative bound `hi`.
pub fn clamp_coord(v: i64, hi: i64) -> (r: i64)
    requires
        hi >= 0,
    ensures
        r as int == spec_clamp(v as int, 0, hi as int),
        0 <= r <= hi,
{
    if v < 0 {
        0
    } else if v > hi {
        hi
    } else {
        v
    }
}

} // verus!
