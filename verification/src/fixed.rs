//! Saturating integer arithmetic shared by the animation code.
//!
//! Time is counted in whole milliseconds and every accumulator is an `i64`.
//! Sums and products are formed in `i128`, where they cannot overflow, and
//! then narrowed with [`clamp_wide`], so no frame length can make an update
//! fail.

use vstd::prelude::*;

verus! {

/// `x` limited to the range of `i64`.
pub open spec fn clamp(x: int) -> int {
    if x < i64::MIN {
        i64::MIN as int
    } else if x > i64::MAX {
        i64::MAX as int
    } else {
        x
    }
}

/// The distance of `x` from zero.
pub open spec fn magnitude(x: int) -> int {
    if x < 0 {
        -x
    } else {
        x
    }
}

/// Narrows a wide intermediate result, saturating at the bounds of `i64`.
pub fn clamp_wide(x: i128) -> (r: i64)
    ensures
        r == clamp(x as int),
{
    if x < -9223372036854775808i128 {
        i64::MIN
    } else if x > 9223372036854775807i128 {
        i64::MAX
    } else {
        x as i64
    }
}

/// `a + b`, saturating.
pub fn saturating_sum(a: i64, b: i64) -> (r: i64)
    ensures
        r == clamp(a + b),
{
    clamp_wide(a as i128 + b as i128)
}

/// `a - b`, saturating.
pub fn saturating_difference(a: i64, b: i64) -> (r: i64)
    ensures
        r == clamp(a - b),
{
    clamp_wide(a as i128 - b as i128)
}

/// `value * rate` for a rate of at most sixteen bits, saturating.
pub fn saturating_scale(value: i64, rate: u16) -> (r: i64)
    ensures
        r == clamp(value * rate),
{
    assert(-0x8000_0000_0000_0000 * 0x1_0000 <= value * rate <= 0x8000_0000_0000_0000
        * 0x1_0000) by (nonlinear_arith)
        requires
            -0x8000_0000_0000_0000 <= value <= 0x8000_0000_0000_0000,
            0 <= rate <= 0x1_0000,
    ;
    clamp_wide(value as i128 * rate as i128)
}

/// Whether `a` lies at least as far from zero as `b`.
pub fn reaches(a: i64, b: i64) -> (r: bool)
    ensures
        r == (magnitude(a as int) >= magnitude(b as int)),
{
    let wide_a: i128 = if a < 0 {
        -(a as i128)
    } else {
        a as i128
    };
    let wide_b: i128 = if b < 0 {
        -(b as i128)
    } else {
        b as i128
    };
    wide_a >= wide_b
}

/// Whether `a` lies farther from zero than `bound`.
pub fn exceeds(a: i64, bound: i64) -> (r: bool)
    ensures
        r == (magnitude(a as int) > magnitude(bound as int)),
{
    let wide_a: i128 = if a < 0 {
        -(a as i128)
    } else {
        a as i128
    };
    let wide_b: i128 = if bound < 0 {
        -(bound as i128)
    } else {
        bound as i128
    };
    wide_a > wide_b
}

} // verus!
