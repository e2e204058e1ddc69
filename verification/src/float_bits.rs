//! Single-precision values held as IEEE-754 bit patterns.
//!
//! The library never does floating-point arithmetic; it only orders and
//! clamps values, which depend on the sign-magnitude layout of the bits alone.
use vstd::prelude::*;

verus! {

/// Bit pattern of `0.0f32`.
pub const F32_ZERO: u32 = 0x0000_0000;

/// Bit pattern of `1.0f32`.
pub const F32_ONE: u32 = 0x3f80_0000;

/// The sign bit of a single-precision value.
pub const F32_SIGN_BIT: u32 = 0x8000_0000;

/// The bits are a NaN: all exponent bits set and a non-zero mantissa.
pub open spec fn f32_is_nan(b: u32) -> bool {
    b % 0x8000_0000 > 0x7f80_0000
}

/// A key in which the numeric order of non-NaN values is the integer order.
/// Negative values (sign bit set) count down from the sign bit by magnitude,
/// non-negative values count up from it, so `-0.0` and `+0.0` share a key.
pub open spec fn f32_order_key(b: u32) -> int {
    if b >= 0x8000_0000 {
        0x1_0000_0000 - b
    } else {
        0x8000_0000 + b
    }
}

/// `a < b` as IEEE-754 compares: false whenever either side is NaN.
pub open spec fn f32_lt(a: u32, b: u32) -> bool {
    !f32_is_nan(a) && !f32_is_nan(b) && f32_order_key(a) < f32_order_key(b)
}

/// `a <= b` as IEEE-754 compares: false whenever either side is NaN.
pub open spec fn f32_le(a: u32, b: u32) -> bool {
    !f32_is_nan(a) && !f32_is_nan(b) && f32_order_key(a) <= f32_order_key(b)
}

/// `x.clamp(0.0, 1.0)`: below zero gives zero, above one gives one, anything
/// else (NaN included) is returned unchanged.
pub open spec fn f32_clamp_unit(b: u32) -> u32 {
    if f32_lt(b, F32_ZERO) {
        F32_ZERO
    } else if f32_lt(F32_ONE, b) {
        F32_ONE
    } else {
        b
    }
}

/// Whether the bits are a NaN.
pub fn is_nan_bits(b: u32) -> (r: bool)
    ensures
        r == f32_is_nan(b),
{
    b % F32_SIGN_BIT > 0x7f80_0000
}

/// The order key of a value, see [`f32_order_key`].
pub fn order_key(b: u32) -> (r: u64)
    ensures
        r as int == f32_order_key(b),
{
    if b >= F32_SIGN_BIT {
        0x1_0000_0000u64 - b as u64
    } else {
        0x8000_0000u64 + b as u64
    }
}

/// `a < b` on single-precision values given by their bits.
pub fn f32_less(a: u32, b: u32) -> (r: bool)
    ensures
        r == f32_lt(a, b),
{
    !is_nan_bits(a) && !is_nan_bits(b) && order_key(a) < order_key(b)
}

/// `a <= b` on single-precision values given by their bits.
pub fn f32_less_eq(a: u32, b: u32) -> (r: bool)
    ensures
        r == f32_le(a, b),
{
    !is_nan_bits(a) && !is_nan_bits(b) && order_key(a) <= order_key(b)
}

/// `x.clamp(0.0, 1.0)` on the bits of `x`.
pub fn clamp_unit(b: u32) -> (r: u32)
    ensures
        r == f32_clamp_unit(b),
        !f32_is_nan(b) ==> f32_le(F32_ZERO, r) && f32_le(r, F32_ONE),
        f32_is_nan(b) ==> r == b,
{
    if f32_less(b, F32_ZERO) {
        F32_ZERO
    } else if f32_less(F32_ONE, b) {
        F32_ONE
    } else {
        b
    }
}

/// The key order is total on non-NaN values and agrees with `<=`.
pub proof fn lemma_le_total(a: u32, b: u32)
    requires
        !f32_is_nan(a),
        !f32_is_nan(b),
    ensures
        f32_le(a, b) || f32_le(b, a),
        f32_lt(a, b) <==> !f32_le(b, a),
{
}

/// Clamping to the unit interval never yields a NaN from a number and
/// leaves values already in `[0, 1]` as they are.
pub proof fn lemma_clamp_unit_in_range(b: u32)
    ensures
        !f32_is_nan(b) ==> !f32_is_nan(f32_clamp_unit(b)),
        !f32_is_nan(b) && f32_le(F32_ZERO, b) && f32_le(b, F32_ONE) ==> f32_clamp_unit(b) == b,
        f32_clamp_unit(f32_clamp_unit(b)) == f32_clamp_unit(b),
{
}

/// IEEE-754 order on sign-magnitude bits: among non-negative values a larger
/// bit pattern is a larger number, among negative values a larger bit pattern
/// is a smaller number, every negative number lies below every non-negative
/// one, and `-0.0` equals `+0.0`.
pub proof fn lemma_order_is_sign_magnitude(a: u32, b: u32)
    requires
        !f32_is_nan(a),
        !f32_is_nan(b),
    ensures
        a < F32_SIGN_BIT && b < F32_SIGN_BIT ==> (f32_lt(a, b) <==> a < b),
        a >= F32_SIGN_BIT && b >= F32_SIGN_BIT ==> (f32_lt(a, b) <==> a > b),
        a >= F32_SIGN_BIT && b < F32_SIGN_BIT ==> (f32_lt(a, b) <==> !(a == F32_SIGN_BIT && b
            == F32_ZERO)),
        a < F32_SIGN_BIT && b >= F32_SIGN_BIT ==> !f32_lt(a, b),
        f32_le(a, b) <==> (f32_lt(a, b) || a == b || (a % F32_SIGN_BIT == 0 && b % F32_SIGN_BIT
            == 0)),
{
}

/// The order key is strictly increasing in the value of the bits' number:
/// distinct non-negative values below infinity get distinct, ordered keys.
pub proof fn lemma_order_key_strictly_monotone(a: u32, b: u32)
    requires
        a < b < 0x7f80_0000,
    ensures
        f32_order_key(a) < f32_order_key(b),
        f32_lt(a, b),
        !f32_lt(b, a),
{
}

} // verus!
