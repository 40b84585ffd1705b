//! Fixed-point positions.
//!
//! A coordinate is an `i64` number of sub-pixel units; [`UNITS_PER_PX`] of
//! them make one pixel. All contracts speak of the unbounded integer that the
//! `i64` holds.

use vstd::prelude::*;

verus! {

/// Sub-pixel units in one pixel.
pub const UNITS_PER_PX: i64 = 1_000_000;

/// Half a pixel, in units.
pub const HALF_PX: i64 = 500_000;

/// A position in source-frame space, in units.
#[derive(Clone, Copy, Debug, PartialEq, Eq, Structural)]
pub struct Point {
    pub x: i64,
    pub y: i64,
}

/// `v` limited to the interval from `lo` to `hi`.
pub open spec fn clamp(v: int, lo: int, hi: int) -> int {
    if v < lo {
        lo
    } else if v > hi {
        hi
    } else {
        v
    }
}

/// A whole number of pixels, in units.
pub open spec fn px(n: int) -> int {
    n * UNITS_PER_PX
}

/// The pixel nearest to a non-negative position, halves going up.
pub open spec fn nearest_px(v: int) -> int {
    (v + HALF_PX) / (UNITS_PER_PX as int)
}

/// Converts a pixel count to units.
pub fn px_to_units(n: u32) -> (r: i64)
    ensures
        r == px(n as int),
{
    (n as i64) * UNITS_PER_PX
}

/// Limits `v` to the interval from `lo` to `hi`.
pub fn clamp_units(v: i128, lo: i64, hi: i64) -> (r: i64)
    requires
        lo <= hi,
    ensures
        r == clamp(v as int, lo as int, hi as int),
{
    if v < lo as i128 {
        lo
    } else if v > hi as i128 {
        hi
    } else {
        v as i64
    }
}

} // verus!
