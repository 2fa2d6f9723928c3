//! IEEE-754 binary32 values carried as their bit patterns.
//!
//! Settings that are real numbers (render scale, sharpness, subtitle scale,
//! audio gains) are stored as the 32-bit pattern of an `f32`. This module
//! states, over those patterns, the meaning of the three float operations the
//! settings logic needs: `==`, `<` and `clamp`, exactly as IEEE-754 and the
//! standard library define them for `f32`.

use vstd::prelude::*;

verus! {

/// Bit pattern of `0.0_f32`.
pub const F32_ZERO: u32 = 0x0000_0000;
/// Bit pattern of `0.25_f32`.
pub const F32_QUARTER: u32 = 0x3E80_0000;
/// Bit pattern of `0.5_f32`.
pub const F32_HALF: u32 = 0x3F00_0000;
/// Bit pattern of `1.0_f32`.
pub const F32_ONE: u32 = 0x3F80_0000;
/// Bit pattern of `3.0_f32`.
pub const F32_THREE: u32 = 0x4040_0000;

/// The sign bit is set.
pub open spec fn is_negative(b: u32) -> bool {
    b >= 0x8000_0000
}

/// The pattern with its sign bit cleared: exponent and mantissa.
pub open spec fn magnitude(b: u32) -> u32 {
    if is_negative(b) {
        (b - 0x8000_0000) as u32
    } else {
        b
    }
}

/// Not a number: all exponent bits set and a non-zero mantissa.
pub open spec fn is_nan(b: u32) -> bool {
    magnitude(b) > 0x7F80_0000
}

/// Positive or negative zero.
pub open spec fn is_zero(b: u32) -> bool {
    magnitude(b) == 0
}

/// IEEE-754 equality: NaN equals nothing, the two zeros are equal, and any
/// other two values are equal exactly when their patterns are.
pub open spec fn f32_eq(a: u32, b: u32) -> bool {
    &&& !is_nan(a)
    &&& !is_nan(b)
    &&& (a == b || (is_zero(a) && is_zero(b)))
}

/// IEEE-754 `<`: false when either side is NaN; otherwise numeric order,
/// under which the two zeros are equal.
pub open spec fn f32_lt(a: u32, b: u32) -> bool {
    &&& !is_nan(a)
    &&& !is_nan(b)
    &&& !(is_zero(a) && is_zero(b))
    &&& if !is_negative(a) && !is_negative(b) {
        a < b
    } else if is_negative(a) && is_negative(b) {
        a > b
    } else {
        is_negative(a)
    }
}

/// IEEE-754 `<=`.
pub open spec fn f32_le(a: u32, b: u32) -> bool {
    f32_lt(a, b) || f32_eq(a, b)
}

/// `f32::clamp(x, lo, hi)`: `lo` when `x < lo`, then `hi` when the value so
/// far is greater than `hi`, else `x` (so a NaN `x` comes back unchanged).
pub open spec fn f32_clamp(x: u32, lo: u32, hi: u32) -> u32 {
    let low = if f32_lt(x, lo) {
        lo
    } else {
        x
    };
    if f32_lt(hi, low) {
        hi
    } else {
        low
    }
}

/// What `f32::clamp` asks of its bounds; it panics otherwise.
pub open spec fn valid_bounds(lo: u32, hi: u32) -> bool {
    !is_nan(lo) && !is_nan(hi) && f32_le(lo, hi)
}

fn magnitude_of(b: u32) -> (m: u32)
    ensures
        m == magnitude(b),
{
    if b >= 0x8000_0000 {
        b - 0x8000_0000
    } else {
        b
    }
}

/// `a == b` for the two `f32` values with these bit patterns.
pub fn f32_bits_eq(a: u32, b: u32) -> (r: bool)
    ensures
        r == f32_eq(a, b),
{
    let ma = magnitude_of(a);
    let mb = magnitude_of(b);
    ma <= 0x7F80_0000 && mb <= 0x7F80_0000 && (a == b || (ma == 0 && mb == 0))
}

/// `a < b` for the two `f32` values with these bit patterns.
pub fn f32_bits_lt(a: u32, b: u32) -> (r: bool)
    ensures
        r == f32_lt(a, b),
{
    let ma = magnitude_of(a);
    let mb = magnitude_of(b);
    if ma > 0x7F80_0000 || mb > 0x7F80_0000 || (ma == 0 && mb == 0) {
        return false;
    }
    let neg_a = a >= 0x8000_0000;
    let neg_b = b >= 0x8000_0000;
    if !neg_a && !neg_b {
        a < b
    } else if neg_a && neg_b {
        a > b
    } else {
        neg_a
    }
}

/// `x.clamp(lo, hi)` for `f32` bit patterns.
pub fn f32_bits_clamp(x: u32, lo: u32, hi: u32) -> (r: u32)
    requires
        valid_bounds(lo, hi),
    ensures
        r == f32_clamp(x, lo, hi),
{
    let low = if f32_bits_lt(x, lo) {
        lo
    } else {
        x
    };
    if f32_bits_lt(hi, low) {
        hi
    } else {
        low
    }
}

/// A clamped value lies within the bounds, unless it was NaN, in which case
/// it is returned unchanged; and clamping it again changes nothing.
pub proof fn lemma_clamp_within(x: u32, lo: u32, hi: u32)
    requires
        valid_bounds(lo, hi),
    ensures
        is_nan(x) ==> f32_clamp(x, lo, hi) == x,
        !is_nan(x) ==> f32_le(lo, f32_clamp(x, lo, hi)) && f32_le(f32_clamp(x, lo, hi), hi),
        f32_clamp(f32_clamp(x, lo, hi), lo, hi) == f32_clamp(x, lo, hi),
{
}

/// A value already within the bounds is left unchanged by clamping; one
/// below the lower bound becomes the lower bound, one above the upper bound
/// becomes the upper bound.
pub proof fn lemma_clamp_cases(x: u32, lo: u32, hi: u32)
    requires
        valid_bounds(lo, hi),
    ensures
        !is_nan(x) && f32_le(lo, x) && f32_le(x, hi) ==> f32_clamp(x, lo, hi) == x,
        f32_lt(x, lo) ==> f32_clamp(x, lo, hi) == lo,
        f32_lt(hi, x) ==> f32_clamp(x, lo, hi) == hi,
{
}

/// IEEE equality is reflexive on numbers, never holds for NaN, identifies
/// the two zeros and otherwise tells patterns apart; `<` is irreflexive and
/// asymmetric, and exactly one of `<`, `==`, `>` holds between numbers.
pub proof fn lemma_ieee_order(a: u32, b: u32)
    ensures
        !is_nan(a) ==> f32_eq(a, a),
        is_nan(a) ==> !f32_eq(a, b) && !f32_lt(a, b) && !f32_lt(b, a),
        f32_eq(0x0000_0000, 0x8000_0000),
        !is_zero(a) && a != b ==> !f32_eq(a, b),
        !f32_lt(a, a),
        f32_lt(a, b) ==> !f32_lt(b, a),
        !is_nan(a) && !is_nan(b) ==> (f32_lt(a, b) || f32_eq(a, b) || f32_lt(b, a)),
        f32_eq(a, b) ==> f32_eq(b, a),
{
}

/// The named constants are the numbers 0 < 0.25 < 0.5 < 1 < 3, none NaN, and
/// each pair used as clamp bounds is valid.
pub proof fn lemma_constants_ordered()
    ensures
        f32_lt(F32_ZERO, F32_QUARTER),
        f32_lt(F32_QUARTER, F32_HALF),
        f32_lt(F32_HALF, F32_ONE),
        f32_lt(F32_ONE, F32_THREE),
        is_zero(F32_ZERO),
        !is_negative(F32_ONE) && !is_nan(F32_ONE) && !is_nan(F32_THREE),
        valid_bounds(F32_QUARTER, F32_ONE),
        valid_bounds(F32_ZERO, F32_ONE),
        valid_bounds(F32_HALF, F32_THREE),
{
}

} // verus!
