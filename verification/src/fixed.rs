//! Fixed-point scalar arithmetic for the simulation kernel.
//!
//! A continuous model quantity is held as a raw `i64` counting millionths of
//! a model unit (`FX_ONE` raw units make one unit). Multiplication and
//! division rescale with truncation toward zero, and every operation
//! saturates at the `i64` range instead of wrapping: a saturated value plays
//! the role that a non-finite number plays in a floating-point kernel, and
//! [`fx_is_saturated`] exposes the corresponding "has the state diverged"
//! check to callers.

use vstd::prelude::*;
use vstd::arithmetic::div_mod::{lemma_div_nonincreasing, lemma_div_pos_is_pos};

verus! {

/// Raw units per model unit.
pub const FX_ONE: i64 = 1_000_000;

/// The mathematical value of a raw amount, clipped into the `i64` range.
pub open spec fn sat64(x: int) -> int {
    if x > i64::MAX as int {
        i64::MAX as int
    } else if x < i64::MIN as int {
        i64::MIN as int
    } else {
        x
    }
}

/// Division truncating toward zero, for a positive divisor; this is the
/// rounding the executable operations use.
pub open spec fn div_trunc(a: int, b: int) -> int
    recommends
        b >= 1,
{
    if a >= 0 {
        a / b
    } else {
        -((-a) / b)
    }
}

/// Saturating addition of raw amounts.
pub open spec fn fx_add_spec(a: int, b: int) -> int {
    sat64(a + b)
}

/// Saturating subtraction of raw amounts.
pub open spec fn fx_sub_spec(a: int, b: int) -> int {
    sat64(a - b)
}

/// Product of two raw amounts, rescaled back to raw units.
pub open spec fn fx_mul_spec(a: int, b: int) -> int {
    sat64(div_trunc(a * b, FX_ONE as int))
}

/// Quotient of two raw amounts, rescaled back to raw units; the divisor must
/// be a positive raw amount.
pub open spec fn fx_div_spec(a: int, b: int) -> int
    recommends
        b >= 1,
{
    sat64(div_trunc(a * (FX_ONE as int), b))
}

/// A raw amount clamped into `[-limit, limit]`.
pub open spec fn fx_clamp_spec(a: int, limit: int) -> int {
    if a > limit {
        limit
    } else if a < -limit {
        -limit
    } else {
        a
    }
}

pub proof fn lemma_div_trunc_bounds(a: int, b: int)
    requires
        b >= 1,
    ensures
        a >= 0 ==> 0 <= div_trunc(a, b) <= a,
        a < 0 ==> a <= div_trunc(a, b) <= 0,
{
    if a >= 0 {
        lemma_div_pos_is_pos(a, b);
        lemma_div_nonincreasing(a, b);
    } else {
        lemma_div_pos_is_pos(-a, b);
        lemma_div_nonincreasing(-a, b);
    }
}

/// The product of two `i64` values stays strictly inside the `i128` range.
pub proof fn lemma_wide_product_in_range(a: int, b: int)
    requires
        i64::MIN as int <= a <= i64::MAX as int,
        i64::MIN as int <= b <= i64::MAX as int,
    ensures
        i128::MIN < a * b,
        a * b <= i128::MAX,
{
    assert(-0x4000_0000_0000_0000_0000_0000_0000_0000 <= a * b
        <= 0x4000_0000_0000_0000_0000_0000_0000_0000) by (nonlinear_arith)
        requires
            -0x8000_0000_0000_0000 <= a <= 0x7fff_ffff_ffff_ffff,
            -0x8000_0000_0000_0000 <= b <= 0x7fff_ffff_ffff_ffff,
    ;
}

/// Truncating division of a wide intermediate by a positive divisor.
pub(crate) fn div_trunc_i128(a: i128, b: i128) -> (q: i128)
    requires
        1 <= b,
        i128::MIN < a,
    ensures
        q as int == div_trunc(a as int, b as int),
{
    proof {
        lemma_div_trunc_bounds(a as int, b as int);
    }
    match a.checked_div(b) {
        Some(q) => q,
        None => {
            proof {
                assert(false);
            }
            0
        },
    }
}

/// Narrowing of a wide intermediate back to a raw amount, saturating.
pub(crate) fn narrow_to_i64(q: i128) -> (r: i64)
    ensures
        r as int == sat64(q as int),
{
    if q > i64::MAX as i128 {
        i64::MAX
    } else if q < i64::MIN as i128 {
        i64::MIN
    } else {
        q as i64
    }
}

/// Saturating addition of raw amounts.
pub fn fx_add(a: i64, b: i64) -> (r: i64)
    ensures
        r as int == fx_add_spec(a as int, b as int),
{
    narrow_to_i64(a as i128 + b as i128)
}

/// Saturating subtraction of raw amounts.
pub fn fx_sub(a: i64, b: i64) -> (r: i64)
    ensures
        r as int == fx_sub_spec(a as int, b as int),
{
    narrow_to_i64(a as i128 - b as i128)
}

/// Fixed-point multiplication: rescaled, truncated, saturated.
pub fn fx_mul(a: i64, b: i64) -> (r: i64)
    ensures
        r as int == fx_mul_spec(a as int, b as int),
{
    proof {
        lemma_wide_product_in_range(a as int, b as int);
    }
    let wide: i128 = (a as i128) * (b as i128);
    let q = div_trunc_i128(wide, FX_ONE as i128);
    narrow_to_i64(q)
}

/// Fixed-point division by a positive raw amount: rescaled, truncated,
/// saturated.
pub fn fx_div(a: i64, b: i64) -> (r: i64)
    requires
        b >= 1,
    ensures
        r as int == fx_div_spec(a as int, b as int),
{
    proof {
        lemma_wide_product_in_range(a as int, FX_ONE as int);
    }
    let wide: i128 = (a as i128) * (FX_ONE as i128);
    let q = div_trunc_i128(wide, b as i128);
    narrow_to_i64(q)
}

/// Truncating division of a raw amount by a positive plain integer (no
/// rescaling); used for step-size factors such as the millisecond scaling.
pub fn fx_div_int(a: i64, b: i64) -> (r: i64)
    requires
        b >= 1,
    ensures
        r as int == div_trunc(a as int, b as int),
{
    proof {
        lemma_div_trunc_bounds(a as int, b as int);
    }
    let q = div_trunc_i128(a as i128, b as i128);
    q as i64
}

/// Saturating negation of a raw amount.
pub open spec fn fx_neg_spec(a: int) -> int {
    sat64(-a)
}

/// Saturating negation of a raw amount.
pub fn fx_neg(a: i64) -> (r: i64)
    ensures
        r as int == fx_neg_spec(a as int),
{
    narrow_to_i64(-(a as i128))
}

/// Clamp a raw amount into `[-limit, limit]`.
pub fn fx_clamp(a: i64, limit: i64) -> (r: i64)
    requires
        limit >= 0,
    ensures
        r as int == fx_clamp_spec(a as int, limit as int),
{
    if a > limit {
        limit
    } else if a < -limit {
        -limit
    } else {
        a
    }
}

/// Whether a raw amount sits at the edge of the representable range, the
/// analogue of a non-finite value in a floating-point kernel.
pub fn fx_is_saturated(a: i64) -> (r: bool)
    ensures
        r == (a as int == i64::MAX as int || a as int == i64::MIN as int),
{
    a == i64::MAX || a == i64::MIN
}

} // verus!
