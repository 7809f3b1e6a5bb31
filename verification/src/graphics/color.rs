//! Tint colors and texture-space rectangles.

use vstd::prelude::*;

use crate::scalar::Scalar;
use crate::scalar::SCALAR_BYTE_MAX;
use crate::scalar::SCALAR_ONE;
use crate::scalar::SCALAR_ONE_TWENTIETH;
use crate::scalar::SCALAR_QUARTER;
use crate::scalar::SCALAR_ZERO;
use crate::scalar::bits_to_u8;
use crate::scalar::div_bits;
use crate::scalar::f32_div;
use crate::scalar::f32_mul;
use crate::scalar::mul_bits;
use crate::scalar::spec_bits_to_u8;
use crate::scalar::spec_u8_to_bits;
use crate::scalar::u8_to_bits;

verus! {

/// A tint: four normalized binary32 components, red, green, blue, alpha.
/// No invariant clamps the components; out-of-range values pass through.
#[derive(Clone, Copy, Debug, PartialEq)]
pub struct Color(pub [Scalar; 4]);

impl Color {
    /// A color from four byte components, each divided by `255.0`.
    pub fn rgba(r: u8, g: u8, b: u8, a: u8) -> (c: Color)
        ensures
            c.0@ == seq![
                f32_div(spec_u8_to_bits(r), SCALAR_BYTE_MAX),
                f32_div(spec_u8_to_bits(g), SCALAR_BYTE_MAX),
                f32_div(spec_u8_to_bits(b), SCALAR_BYTE_MAX),
                f32_div(spec_u8_to_bits(a), SCALAR_BYTE_MAX),
            ],
            r == 0 ==> c.0[0] == SCALAR_ZERO,
            g == 0 ==> c.0[1] == SCALAR_ZERO,
            b == 0 ==> c.0[2] == SCALAR_ZERO,
            a == 0 ==> c.0[3] == SCALAR_ZERO,
            r == 255 ==> c.0[0] == SCALAR_ONE,
            g == 255 ==> c.0[1] == SCALAR_ONE,
            b == 255 ==> c.0[2] == SCALAR_ONE,
            a == 255 ==> c.0[3] == SCALAR_ONE,
    {
        Color(
            [
                div_bits(u8_to_bits(r), SCALAR_BYTE_MAX),
                div_bits(u8_to_bits(g), SCALAR_BYTE_MAX),
                div_bits(u8_to_bits(b), SCALAR_BYTE_MAX),
                div_bits(u8_to_bits(a), SCALAR_BYTE_MAX),
            ],
        )
    }

    /// Opaque black.
    pub fn black() -> (c: Color)
        ensures
            c == (Color([SCALAR_ZERO, SCALAR_ZERO, SCALAR_ZERO, SCALAR_ONE])),
    {
        Color([SCALAR_ZERO, SCALAR_ZERO, SCALAR_ZERO, SCALAR_ONE])
    }

    /// Opaque quarter-intensity grey.
    pub fn grey() -> (c: Color)
        ensures
            c == (Color([SCALAR_QUARTER, SCALAR_QUARTER, SCALAR_QUARTER, SCALAR_ONE])),
    {
        Color([SCALAR_QUARTER, SCALAR_QUARTER, SCALAR_QUARTER, SCALAR_ONE])
    }

    /// Opaque white.
    pub fn white() -> (c: Color)
        ensures
            c == (Color([SCALAR_ONE, SCALAR_ONE, SCALAR_ONE, SCALAR_ONE])),
    {
        Color([SCALAR_ONE, SCALAR_ONE, SCALAR_ONE, SCALAR_ONE])
    }

    /// Opaque red with faint green and blue.
    pub fn red() -> (c: Color)
        ensures
            c == (Color([SCALAR_ONE, SCALAR_ONE_TWENTIETH, SCALAR_ONE_TWENTIETH, SCALAR_ONE])),
    {
        Color([SCALAR_ONE, SCALAR_ONE_TWENTIETH, SCALAR_ONE_TWENTIETH, SCALAR_ONE])
    }

    /// Fully transparent black.
    pub fn transparent() -> (c: Color)
        ensures
            c == (Color([SCALAR_ZERO, SCALAR_ZERO, SCALAR_ZERO, SCALAR_ZERO])),
    {
        Color([SCALAR_ZERO, SCALAR_ZERO, SCALAR_ZERO, SCALAR_ZERO])
    }

    /// The four components scaled by `255.0` and truncated to bytes.
    pub fn as_u8_arr(&self) -> (r: [u8; 4])
        ensures
            forall|i: int|
                0 <= i < 4 ==> r[i] == spec_bits_to_u8(f32_mul(self.0[i], SCALAR_BYTE_MAX)),
            *self == (Color([SCALAR_ONE, SCALAR_ONE, SCALAR_ONE, SCALAR_ONE])) ==> r@ == seq![
                255u8,
                255u8,
                255u8,
                255u8,
            ],
            *self == (Color([SCALAR_ZERO, SCALAR_ZERO, SCALAR_ZERO, SCALAR_ONE])) ==> r@ == seq![
                0u8,
                0u8,
                0u8,
                255u8,
            ],
    {
        [
            bits_to_u8(mul_bits(self.0[0], SCALAR_BYTE_MAX)),
            bits_to_u8(mul_bits(self.0[1], SCALAR_BYTE_MAX)),
            bits_to_u8(mul_bits(self.0[2], SCALAR_BYTE_MAX)),
            bits_to_u8(mul_bits(self.0[3], SCALAR_BYTE_MAX)),
        ]
    }

    /// The four components scaled by `255.0` and truncated to bytes, as a
    /// vector.
    pub fn as_u8_vec(&self) -> (r: Vec<u8>)
        ensures
            r@.len() == 4,
            forall|i: int|
                0 <= i < 4 ==> r@[i] == spec_bits_to_u8(f32_mul(self.0[i], SCALAR_BYTE_MAX)),
    {
        let mut v: Vec<u8> = Vec::new();
        v.push(bits_to_u8(mul_bits(self.0[0], SCALAR_BYTE_MAX)));
        v.push(bits_to_u8(mul_bits(self.0[1], SCALAR_BYTE_MAX)));
        v.push(bits_to_u8(mul_bits(self.0[2], SCALAR_BYTE_MAX)));
        v.push(bits_to_u8(mul_bits(self.0[3], SCALAR_BYTE_MAX)));
        v
    }

    /// The components as a plain array.
    pub fn as_arr(&self) -> (r: [Scalar; 4])
        ensures
            r == self.0,
    {
        self.0
    }
}

impl From<[Scalar; 4]> for Color {
    fn from(a: [Scalar; 4]) -> (c: Color) {
        Color(a)
    }
}

impl vstd::std_specs::convert::FromSpecImpl<[Scalar; 4]> for Color {
    open spec fn obeys_from_spec() -> bool {
        true
    }

    open spec fn from_spec(a: [Scalar; 4]) -> Color {
        Color(a)
    }
}

/// A rectangle in normalized texture space.
#[derive(Clone, Copy, Debug, PartialEq, Eq, Structural)]
pub struct Rect {
    pub x: Scalar,
    pub y: Scalar,
    pub w: Scalar,
    pub h: Scalar,
}

impl Rect {
    /// The rectangle's components as an array, in the order x, y, w, h.
    pub fn as_vec(&self) -> (r: [Scalar; 4])
        ensures
            r@ == seq![self.x, self.y, self.w, self.h],
    {
        [self.x, self.y, self.w, self.h]
    }
}

impl Default for Rect {
    /// The full unit rectangle.
    fn default() -> (r: Rect)
        ensures
            r == (Rect { x: SCALAR_ZERO, y: SCALAR_ZERO, w: SCALAR_ONE, h: SCALAR_ONE }),
    {
        Rect { x: SCALAR_ZERO, y: SCALAR_ZERO, w: SCALAR_ONE, h: SCALAR_ONE }
    }
}

} // verus!
