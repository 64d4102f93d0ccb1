//! Ordering of IEEE-754 binary32 values, carried as their raw bit patterns.
//!
//! Pixel data, strengths and metric values are `f32` in the processing code.
//! The decision logic of the library only ever *compares* such values, so it
//! receives them as `u32` bit patterns (`f32::to_bits`) and compares them with
//! the functions below, which follow IEEE-754 comparison exactly: any
//! comparison with a NaN is false, and `-0.0` equals `+0.0`.
use vstd::prelude::*;

verus! {

/// Bit pattern of `+0.0`.
pub const ZERO_BITS: u32 = 0x0000_0000;

/// Bit pattern of `1.0`.
pub const ONE_BITS: u32 = 0x3f80_0000;

/// Bit pattern of `+infinity`.
pub const POS_INFINITY_BITS: u32 = 0x7f80_0000;

/// Bit pattern of `-infinity`.
pub const NEG_INFINITY_BITS: u32 = 0xff80_0000;

/// Sign bit of a binary32 value.
pub const SIGN_MASK: u32 = 0x8000_0000;

/// Exponent field of a binary32 value.
pub const EXPONENT_MASK: u32 = 0x7f80_0000;

/// Fraction field of a binary32 value.
pub const FRACTION_MASK: u32 = 0x007f_ffff;

/// Everything but the sign bit.
pub const MAGNITUDE_MASK: u32 = 0x7fff_ffff;

/// The value is a NaN: exponent all ones, fraction non-zero.
pub open spec fn is_nan(bits: u32) -> bool {
    (bits & EXPONENT_MASK) == EXPONENT_MASK && (bits & FRACTION_MASK) != 0u32
}

/// Position of a non-NaN value on the number line: the magnitude bits,
/// negated for negative values.  Both zeros map to 0.
pub open spec fn order_key(bits: u32) -> int {
    if (bits & SIGN_MASK) == 0u32 {
        (bits & MAGNITUDE_MASK) as int
    } else {
        -((bits & MAGNITUDE_MASK) as int)
    }
}

/// IEEE-754 `a < b`.
pub open spec fn lt(a: u32, b: u32) -> bool {
    !is_nan(a) && !is_nan(b) && order_key(a) < order_key(b)
}

/// IEEE-754 `a <= b`.
pub open spec fn le(a: u32, b: u32) -> bool {
    !is_nan(a) && !is_nan(b) && order_key(a) <= order_key(b)
}

/// IEEE-754 `a > b`.
pub open spec fn gt(a: u32, b: u32) -> bool {
    lt(b, a)
}

/// IEEE-754 `a >= b`.
pub open spec fn ge(a: u32, b: u32) -> bool {
    le(b, a)
}

/// Bit pattern of `|x|`: the sign bit cleared.
pub open spec fn abs(bits: u32) -> u32 {
    bits & MAGNITUDE_MASK
}

/// `f32::is_nan` on a bit pattern.
pub fn bits_is_nan(bits: u32) -> (r: bool)
    ensures
        r == is_nan(bits),
{
    (bits & EXPONENT_MASK) == EXPONENT_MASK && (bits & FRACTION_MASK) != 0
}

/// Signed position of a value on the number line (see [`order_key`]).
pub fn bits_order_key(bits: u32) -> (k: i64)
    ensures
        k as int == order_key(bits),
{
    let magnitude = (bits & MAGNITUDE_MASK) as i64;
    if (bits & SIGN_MASK) == 0 {
        magnitude
    } else {
        -magnitude
    }
}

/// `a < b` for two `f32` values given as bit patterns.
pub fn bits_lt(a: u32, b: u32) -> (r: bool)
    ensures
        r == lt(a, b),
{
    !bits_is_nan(a) && !bits_is_nan(b) && bits_order_key(a) < bits_order_key(b)
}

/// `a <= b` for two `f32` values given as bit patterns.
pub fn bits_le(a: u32, b: u32) -> (r: bool)
    ensures
        r == le(a, b),
{
    !bits_is_nan(a) && !bits_is_nan(b) && bits_order_key(a) <= bits_order_key(b)
}

/// `a > b` for two `f32` values given as bit patterns.
pub fn bits_gt(a: u32, b: u32) -> (r: bool)
    ensures
        r == gt(a, b),
{
    bits_lt(b, a)
}

/// `|x|` for an `f32` given as a bit pattern.
pub fn bits_abs(bits: u32) -> (r: u32)
    ensures
        r == abs(bits),
{
    bits & MAGNITUDE_MASK
}

/// IEEE-754 `a == b`: false when either is NaN, and `-0.0 == +0.0`.
pub open spec fn feq(a: u32, b: u32) -> bool {
    !is_nan(a) && !is_nan(b) && order_key(a) == order_key(b)
}

/// `==` on two `f32` values given as bit patterns.
pub fn bits_eq(a: u32, b: u32) -> (r: bool)
    ensures
        r == feq(a, b),
{
    bits_le(a, b) && bits_le(b, a)
}

} // verus!
