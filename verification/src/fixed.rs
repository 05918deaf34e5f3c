//! Fixed-point quantities and the arithmetic that keeps them in range.
//!
//! Positions, scales and input deltas are signed 64-bit counts of thousandths
//! of a unit. Intermediate results are exact; a result that no 64-bit count
//! can hold is pinned to the nearest one that can.

use vstd::prelude::*;

verus! {

/// One whole unit, counted in thousandths.
pub const UNIT: i64 = 1000;

/// The 64-bit count nearest to `v`.
pub open spec fn saturate(v: int) -> int {
    if v < i64::MIN {
        i64::MIN as int
    } else if v > i64::MAX {
        i64::MAX as int
    } else {
        v
    }
}

/// `v` limited to the closed interval from `lo` to `hi`.
pub open spec fn clamp(v: int, lo: int, hi: int) -> int {
    if v < lo {
        lo
    } else if v > hi {
        hi
    } else {
        v
    }
}

/// `num` divided by the positive `den`, rounded toward zero.
pub open spec fn div_toward_zero(num: int, den: int) -> int
    recommends
        den > 0,
{
    if num >= 0 {
        num / den
    } else {
        -((-num) / den)
    }
}

/// Pins a wide intermediate result to the 64-bit range.
pub fn saturate_wide(v: i128) -> (r: i64)
    ensures
        r == saturate(v as int),
{
    if v < i64::MIN as i128 {
        i64::MIN
    } else if v > i64::MAX as i128 {
        i64::MAX
    } else {
        v as i64
    }
}

/// Adds `step` to `base`, saturating at the ends of the 64-bit range.
pub fn saturating_offset(base: i64, step: i128) -> (r: i64)
    ensures
        r == saturate(base + step),
{
    // A step beyond this bound saturates the result whatever the base is, so
    // limiting it first loses nothing and keeps the sum within the wide type.
    let bound: i128 = 0x1_0000_0000_0000_0000;
    let limited: i128 = if step < -bound {
        -bound
    } else if step > bound {
        bound
    } else {
        step
    };
    saturate_wide(base as i128 + limited)
}

} // verus!
