//! IEEE 754 binary32 values carried as raw bit patterns.
//!
//! Verified code never manipulates machine floats directly.  Instead, every
//! numeric quantity of the renderer is a [`Scalar`]: the 32 raw bits of an
//! IEEE 754 binary32 value.  Structural operations (moving, negating,
//! converting to and from small integers, classifying) are implemented and
//! verified here as plain bit manipulation.  The four rounding arithmetic
//! operations are performed by the `rustc_apfloat` software implementation of
//! IEEE 754 behind trusted wrappers; their results are named by
//! uninterpreted functions, together with the handful of exactness facts the
//! rest of the crate relies on.

use vstd::prelude::*;

use rustc_apfloat::Float;
use rustc_apfloat::Round;
use rustc_apfloat::ieee::Single;

verus! {

/// An IEEE 754 binary32 value, as its raw bit pattern.
pub type Scalar = u32;

/// Bits of `+0.0`.
pub const SCALAR_ZERO: u32 = 0;
/// Bits of `-0.0`.
pub const SCALAR_NEG_ZERO: u32 = 0x8000_0000;
/// Bits of `1.0`.
pub const SCALAR_ONE: u32 = 0x3F80_0000;
/// Bits of `0.25`.
pub const SCALAR_QUARTER: u32 = 0x3E80_0000;
/// Bits of `0.05`.
pub const SCALAR_ONE_TWENTIETH: u32 = 0x3D4C_CCCD;
/// Bits of `255.0`.
pub const SCALAR_BYTE_MAX: u32 = 0x437F_0000;

/// The magnitude (absolute-value) bits of a scalar: the sign bit stripped.
pub open spec fn magnitude_bits(a: Scalar) -> int {
    (a as int) % 0x8000_0000
}

/// The scalar is a NaN: exponent all ones and a non-zero fraction.
pub open spec fn is_nan_bits(a: Scalar) -> bool {
    magnitude_bits(a) > 0x7F80_0000
}

/// The scalar is finite (neither an infinity nor a NaN).
pub open spec fn is_finite_bits(a: Scalar) -> bool {
    magnitude_bits(a) < 0x7F80_0000
}

/// The scalar is a zero of either sign.
pub open spec fn is_zero_bits(a: Scalar) -> bool {
    magnitude_bits(a) == 0
}

/// Equality as the `==` of machine binary32 values decides it: NaN is equal
/// to nothing, and the two zeroes are equal to each other.
pub open spec fn scalar_float_eq(a: Scalar, b: Scalar) -> bool {
    &&& !is_nan_bits(a)
    &&& !is_nan_bits(b)
    &&& (a == b || (is_zero_bits(a) && is_zero_bits(b)))
}

/// Negation of a binary32 value flips exactly the sign bit.
pub open spec fn spec_neg(a: Scalar) -> Scalar {
    if a >= 0x8000_0000 {
        (a - 0x8000_0000) as u32
    } else {
        (a + 0x8000_0000) as u32
    }
}

/// Negate a scalar.  IEEE 754 defines negation as a sign-bit operation,
/// exact for every input including NaN.
pub fn neg_bits(a: Scalar) -> (r: Scalar)
    ensures
        r == spec_neg(a),
{
    if a >= 0x8000_0000 {
        a - 0x8000_0000
    } else {
        a + 0x8000_0000
    }
}

/// The rounded binary32 sum of two scalars.
pub uninterp spec fn f32_add(a: Scalar, b: Scalar) -> Scalar;

/// The rounded binary32 difference of two scalars.
pub uninterp spec fn f32_sub(a: Scalar, b: Scalar) -> Scalar;

/// The rounded binary32 product of two scalars.
pub uninterp spec fn f32_mul(a: Scalar, b: Scalar) -> Scalar;

/// The rounded binary32 quotient of two scalars.
pub uninterp spec fn f32_div(a: Scalar, b: Scalar) -> Scalar;

/// Relies on `rustc_apfloat::ieee::Single::add_r`: IEEE 754 binary32
/// addition, rounded to nearest, ties to even.  The stated exact cases are
/// required by IEEE 754: a (positive) zero operand leaves the other operand
/// unchanged unless that operand is `-0.0`, and `x + x` is exactly the
/// doubling of `x`, which is never a NaN and is a negative zero exactly for
/// `x == -0.0`.
#[verifier::external_body]
pub(crate) fn add_bits(a: Scalar, b: Scalar) -> (r: Scalar)
    ensures
        r == f32_add(a, b),
        a == SCALAR_ZERO && !is_nan_bits(b) && b != SCALAR_NEG_ZERO ==> r == b,
        b == SCALAR_ZERO && !is_nan_bits(a) && a != SCALAR_NEG_ZERO ==> r == a,
        a == b && !is_nan_bits(a) ==> !is_nan_bits(r) && (r == SCALAR_NEG_ZERO <==> a
            == SCALAR_NEG_ZERO),
{
    let x = Single::from_bits(a as u128);
    let y = Single::from_bits(b as u128);
    x.add_r(y, Round::NearestTiesToEven).value.to_bits() as u32
}

/// Relies on `rustc_apfloat::ieee::Single::sub_r`: IEEE 754 binary32
/// subtraction, rounded to nearest, ties to even.  The stated exact cases
/// are required by IEEE 754: the difference of a finite value with itself is
/// `+0.0` under this rounding attribute, and `+0.0 - -0.0` is `+0.0`.
#[verifier::external_body]
pub(crate) fn sub_bits(a: Scalar, b: Scalar) -> (r: Scalar)
    ensures
        r == f32_sub(a, b),
        a == b && is_finite_bits(a) ==> r == SCALAR_ZERO,
        a == SCALAR_ZERO && b == SCALAR_NEG_ZERO ==> r == SCALAR_ZERO,
{
    let x = Single::from_bits(a as u128);
    let y = Single::from_bits(b as u128);
    x.sub_r(y, Round::NearestTiesToEven).value.to_bits() as u32
}

/// Relies on `rustc_apfloat::ieee::Single::mul_r`: IEEE 754 binary32
/// multiplication, rounded to nearest, ties to even.  The stated exact cases
/// are required by IEEE 754: multiplication by `1.0` returns the other
/// operand exactly (for non-NaN operands), `+0.0` times a positive finite
/// value is `+0.0`, and the product of two zeroes is the zero whose sign is
/// the exclusive-or of the operand signs.
#[verifier::external_body]
pub(crate) fn mul_bits(a: Scalar, b: Scalar) -> (r: Scalar)
    ensures
        r == f32_mul(a, b),
        !is_nan_bits(a) && b == SCALAR_ONE ==> r == a,
        !is_nan_bits(b) && a == SCALAR_ONE ==> r == b,
        a == SCALAR_ZERO && is_finite_bits(b) && b < 0x8000_0000 ==> r == SCALAR_ZERO,
        b == SCALAR_ZERO && is_finite_bits(a) && a < 0x8000_0000 ==> r == SCALAR_ZERO,
        is_zero_bits(a) && is_zero_bits(b) ==> is_zero_bits(r) && (r == SCALAR_NEG_ZERO <==> ((a
            == SCALAR_NEG_ZERO) != (b == SCALAR_NEG_ZERO))),
{
    let x = Single::from_bits(a as u128);
    let y = Single::from_bits(b as u128);
    x.mul_r(y, Round::NearestTiesToEven).value.to_bits() as u32
}

/// Relies on `rustc_apfloat::ieee::Single::div_r`: IEEE 754 binary32
/// division, rounded to nearest, ties to even.  The stated exact cases are
/// required by IEEE 754: `+0.0` divided by a positive finite non-zero value
/// is `+0.0`, and a finite non-zero value divided by itself is exactly
/// `1.0`.
#[verifier::external_body]
pub(crate) fn div_bits(a: Scalar, b: Scalar) -> (r: Scalar)
    ensures
        r == f32_div(a, b),
        a == SCALAR_ZERO && is_finite_bits(b) && !is_zero_bits(b) && b < 0x8000_0000 ==> r
            == SCALAR_ZERO,
        a == b && is_finite_bits(a) && !is_zero_bits(a) ==> r == SCALAR_ONE,
{
    let x = Single::from_bits(a as u128);
    let y = Single::from_bits(b as u128);
    x.div_r(y, Round::NearestTiesToEven).value.to_bits() as u32
}

/// The binary32 encoding of a small unsigned integer.  Every value of `u8`
/// is exactly representable, so the encoding is exact: a biased exponent
/// holding the index of the leading binary digit, and the remaining digits
/// shifted to the top of the 23-bit fraction field.
pub open spec fn spec_u8_to_bits(v: u8) -> Scalar {
    if v == 0 {
        0
    } else if v >= 128 {
        (134 * 0x0080_0000 + (v - 128) * 0x0001_0000) as u32
    } else if v >= 64 {
        (133 * 0x0080_0000 + (v - 64) * 0x0002_0000) as u32
    } else if v >= 32 {
        (132 * 0x0080_0000 + (v - 32) * 0x0004_0000) as u32
    } else if v >= 16 {
        (131 * 0x0080_0000 + (v - 16) * 0x0008_0000) as u32
    } else if v >= 8 {
        (130 * 0x0080_0000 + (v - 8) * 0x0010_0000) as u32
    } else if v >= 4 {
        (129 * 0x0080_0000 + (v - 4) * 0x0020_0000) as u32
    } else if v >= 2 {
        (128 * 0x0080_0000 + (v - 2) * 0x0040_0000) as u32
    } else {
        (127 * 0x0080_0000) as u32
    }
}

/// Convert a byte to the scalar holding the same numeric value, exactly as
/// the machine conversion from `u8` to binary32 does (the conversion is
/// exact for every byte).
pub fn u8_to_bits(v: u8) -> (r: Scalar)
    ensures
        r == spec_u8_to_bits(v),
{
    let w: u32 = v as u32;
    if w == 0 {
        0
    } else if w >= 128 {
        134 * 0x0080_0000 + (w - 128) * 0x0001_0000
    } else if w >= 64 {
        133 * 0x0080_0000 + (w - 64) * 0x0002_0000
    } else if w >= 32 {
        132 * 0x0080_0000 + (w - 32) * 0x0004_0000
    } else if w >= 16 {
        131 * 0x0080_0000 + (w - 16) * 0x0008_0000
    } else if w >= 8 {
        130 * 0x0080_0000 + (w - 8) * 0x0010_0000
    } else if w >= 4 {
        129 * 0x0080_0000 + (w - 4) * 0x0020_0000
    } else if w >= 2 {
        128 * 0x0080_0000 + (w - 2) * 0x0040_0000
    } else {
        127 * 0x0080_0000
    }
}

/// The value a machine `as u8` cast of a binary32 value yields: truncation
/// toward zero, saturated to the range of `u8`, with NaN mapped to zero.
/// The divisor in each truncating branch is two to the number of fraction
/// digits that lie below the binary point for that exponent.
pub open spec fn spec_bits_to_u8(a: Scalar) -> u8 {
    let exp = ((a as int) / 0x0080_0000) % 0x100;
    let whole = (a as int) % 0x0080_0000 + 0x0080_0000;
    if is_nan_bits(a) {
        0
    } else if a >= 0x8000_0000 {
        0
    } else if exp < 127 {
        0
    } else if exp >= 135 {
        255
    } else if exp == 127 {
        (whole / 0x0080_0000) as u8
    } else if exp == 128 {
        (whole / 0x0040_0000) as u8
    } else if exp == 129 {
        (whole / 0x0020_0000) as u8
    } else if exp == 130 {
        (whole / 0x0010_0000) as u8
    } else if exp == 131 {
        (whole / 0x0008_0000) as u8
    } else if exp == 132 {
        (whole / 0x0004_0000) as u8
    } else if exp == 133 {
        (whole / 0x0002_0000) as u8
    } else {
        (whole / 0x0001_0000) as u8
    }
}

/// Truncate a scalar to a byte exactly as the machine `as u8` cast of a
/// binary32 value does: toward zero, saturating, NaN to zero.
pub fn bits_to_u8(a: Scalar) -> (r: u8)
    ensures
        r == spec_bits_to_u8(a),
{
    let exp: u32 = (a / 0x0080_0000) % 0x100;
    let whole: u32 = a % 0x0080_0000 + 0x0080_0000;
    if a % 0x8000_0000 > 0x7F80_0000 {
        0
    } else if a >= 0x8000_0000 {
        0
    } else if exp < 127 {
        0
    } else if exp >= 135 {
        255
    } else if exp == 127 {
        (whole / 0x0080_0000) as u8
    } else if exp == 128 {
        (whole / 0x0040_0000) as u8
    } else if exp == 129 {
        (whole / 0x0020_0000) as u8
    } else if exp == 130 {
        (whole / 0x0010_0000) as u8
    } else if exp == 131 {
        (whole / 0x0008_0000) as u8
    } else if exp == 132 {
        (whole / 0x0004_0000) as u8
    } else if exp == 133 {
        (whole / 0x0002_0000) as u8
    } else {
        (whole / 0x0001_0000) as u8
    }
}

} // verus!
