//! Affine poses and their 4x4 render matrices.
//!
//! A [`Transform`] is either a decomposed pose (position, rotation, scale,
//! pivot offset) or a raw matrix.  [`Transform::as_mat4`] turns either shape
//! into the single matrix the instance data carries; mutators preserve the
//! shape they find.

use vstd::prelude::*;

use crate::scalar::Scalar;
use crate::scalar::SCALAR_ONE;
use crate::scalar::SCALAR_ZERO;
use crate::scalar::add_bits;
use crate::scalar::f32_add;
use crate::scalar::f32_mul;
use crate::scalar::f32_sub;
use crate::scalar::is_nan_bits;
use crate::scalar::mul_bits;
use crate::scalar::neg_bits;
use crate::scalar::scalar_float_eq;
use crate::scalar::spec_neg;
use crate::scalar::sub_bits;
use crate::scalar::SCALAR_NEG_ZERO;

verus! {

/// A vector of two scalars.
#[derive(Clone, Copy, Debug, PartialEq, Eq, Structural)]
pub struct Vec2 {
    pub x: Scalar,
    pub y: Scalar,
}

/// A vector of three scalars.
#[derive(Clone, Copy, Debug, PartialEq, Eq, Structural)]
pub struct Vec3 {
    pub x: Scalar,
    pub y: Scalar,
    pub z: Scalar,
}

/// A plane rotation, carried as the angle in radians together with its sine
/// and cosine.  The render matrix reads only the sine and the cosine; the
/// trigonometric evaluation happens where machine floats are available, and
/// the pair is handed in here as plain values.
#[derive(Clone, Copy, Debug, PartialEq, Eq, Structural)]
pub struct Angle {
    pub radians: Scalar,
    pub sin: Scalar,
    pub cos: Scalar,
}

impl Angle {
    /// The zero rotation: sine `0.0`, cosine `1.0`.
    pub fn zero() -> (a: Angle)
        ensures
            a == (Angle { radians: SCALAR_ZERO, sin: SCALAR_ZERO, cos: SCALAR_ONE }),
    {
        Angle { radians: SCALAR_ZERO, sin: SCALAR_ZERO, cos: SCALAR_ONE }
    }
}

/// A 4x4 matrix of scalars; `rIcJ` is the entry at row `I`, column `J`.
#[derive(Clone, Copy, Debug, PartialEq, Eq, Structural)]
pub struct Mat4 {
    pub r0c0: Scalar,
    pub r0c1: Scalar,
    pub r0c2: Scalar,
    pub r0c3: Scalar,
    pub r1c0: Scalar,
    pub r1c1: Scalar,
    pub r1c2: Scalar,
    pub r1c3: Scalar,
    pub r2c0: Scalar,
    pub r2c1: Scalar,
    pub r2c2: Scalar,
    pub r2c3: Scalar,
    pub r3c0: Scalar,
    pub r3c1: Scalar,
    pub r3c2: Scalar,
    pub r3c3: Scalar,
}

/// The identity matrix.
pub open spec fn spec_identity_mat() -> Mat4 {
    Mat4 {
        r0c0: SCALAR_ONE,
        r0c1: SCALAR_ZERO,
        r0c2: SCALAR_ZERO,
        r0c3: SCALAR_ZERO,
        r1c0: SCALAR_ZERO,
        r1c1: SCALAR_ONE,
        r1c2: SCALAR_ZERO,
        r1c3: SCALAR_ZERO,
        r2c0: SCALAR_ZERO,
        r2c1: SCALAR_ZERO,
        r2c2: SCALAR_ONE,
        r2c3: SCALAR_ZERO,
        r3c0: SCALAR_ZERO,
        r3c1: SCALAR_ZERO,
        r3c2: SCALAR_ZERO,
        r3c3: SCALAR_ONE,
    }
}

/// Entrywise equality of two matrices under binary32 `==` semantics (the
/// two zeroes are equal, NaN is equal to nothing).
pub open spec fn spec_mat_float_eq(a: Mat4, b: Mat4) -> bool {
    &&& scalar_float_eq(a.r0c0, b.r0c0)
    &&& scalar_float_eq(a.r0c1, b.r0c1)
    &&& scalar_float_eq(a.r0c2, b.r0c2)
    &&& scalar_float_eq(a.r0c3, b.r0c3)
    &&& scalar_float_eq(a.r1c0, b.r1c0)
    &&& scalar_float_eq(a.r1c1, b.r1c1)
    &&& scalar_float_eq(a.r1c2, b.r1c2)
    &&& scalar_float_eq(a.r1c3, b.r1c3)
    &&& scalar_float_eq(a.r2c0, b.r2c0)
    &&& scalar_float_eq(a.r2c1, b.r2c1)
    &&& scalar_float_eq(a.r2c2, b.r2c2)
    &&& scalar_float_eq(a.r2c3, b.r2c3)
    &&& scalar_float_eq(a.r3c0, b.r3c0)
    &&& scalar_float_eq(a.r3c1, b.r3c1)
    &&& scalar_float_eq(a.r3c2, b.r3c2)
    &&& scalar_float_eq(a.r3c3, b.r3c3)
}

/// The four-term inner product `a0*b0 + a1*b1 + a2*b2 + a3*b3`, summed left
/// to right, as one matrix-product entry evaluates it.
pub open spec fn spec_dot(
    a0: Scalar,
    b0: Scalar,
    a1: Scalar,
    b1: Scalar,
    a2: Scalar,
    b2: Scalar,
    a3: Scalar,
    b3: Scalar,
) -> Scalar {
    f32_add(
        f32_add(f32_add(f32_mul(a0, b0), f32_mul(a1, b1)), f32_mul(a2, b2)),
        f32_mul(a3, b3),
    )
}

/// One entry of a matrix product.
fn dot(a0: Scalar, b0: Scalar, a1: Scalar, b1: Scalar, a2: Scalar, b2: Scalar, a3: Scalar, b3: Scalar) -> (r:
    Scalar)
    ensures
        r == spec_dot(a0, b0, a1, b1, a2, b2, a3, b3),
{
    add_bits(
        add_bits(add_bits(mul_bits(a0, b0), mul_bits(a1, b1)), mul_bits(a2, b2)),
        mul_bits(a3, b3),
    )
}

/// The matrix product `l * r`, each entry the left-to-right inner product
/// of a row of `l` with a column of `r`.
pub open spec fn spec_mat_mul(l: Mat4, r: Mat4) -> Mat4 {
    Mat4 {
        r0c0: spec_dot(l.r0c0, r.r0c0, l.r0c1, r.r1c0, l.r0c2, r.r2c0, l.r0c3, r.r3c0),
        r0c1: spec_dot(l.r0c0, r.r0c1, l.r0c1, r.r1c1, l.r0c2, r.r2c1, l.r0c3, r.r3c1),
        r0c2: spec_dot(l.r0c0, r.r0c2, l.r0c1, r.r1c2, l.r0c2, r.r2c2, l.r0c3, r.r3c2),
        r0c3: spec_dot(l.r0c0, r.r0c3, l.r0c1, r.r1c3, l.r0c2, r.r2c3, l.r0c3, r.r3c3),
        r1c0: spec_dot(l.r1c0, r.r0c0, l.r1c1, r.r1c0, l.r1c2, r.r2c0, l.r1c3, r.r3c0),
        r1c1: spec_dot(l.r1c0, r.r0c1, l.r1c1, r.r1c1, l.r1c2, r.r2c1, l.r1c3, r.r3c1),
        r1c2: spec_dot(l.r1c0, r.r0c2, l.r1c1, r.r1c2, l.r1c2, r.r2c2, l.r1c3, r.r3c2),
        r1c3: spec_dot(l.r1c0, r.r0c3, l.r1c1, r.r1c3, l.r1c2, r.r2c3, l.r1c3, r.r3c3),
        r2c0: spec_dot(l.r2c0, r.r0c0, l.r2c1, r.r1c0, l.r2c2, r.r2c0, l.r2c3, r.r3c0),
        r2c1: spec_dot(l.r2c0, r.r0c1, l.r2c1, r.r1c1, l.r2c2, r.r2c1, l.r2c3, r.r3c1),
        r2c2: spec_dot(l.r2c0, r.r0c2, l.r2c1, r.r1c2, l.r2c2, r.r2c2, l.r2c3, r.r3c2),
        r2c3: spec_dot(l.r2c0, r.r0c3, l.r2c1, r.r1c3, l.r2c2, r.r2c3, l.r2c3, r.r3c3),
        r3c0: spec_dot(l.r3c0, r.r0c0, l.r3c1, r.r1c0, l.r3c2, r.r2c0, l.r3c3, r.r3c0),
        r3c1: spec_dot(l.r3c0, r.r0c1, l.r3c1, r.r1c1, l.r3c2, r.r2c1, l.r3c3, r.r3c1),
        r3c2: spec_dot(l.r3c0, r.r0c2, l.r3c1, r.r1c2, l.r3c2, r.r2c2, l.r3c3, r.r3c2),
        r3c3: spec_dot(l.r3c0, r.r0c3, l.r3c1, r.r1c3, l.r3c2, r.r2c3, l.r3c3, r.r3c3),
    }
}

/// Multiply two matrices.
pub fn mat_mul(l: &Mat4, r: &Mat4) -> (m: Mat4)
    ensures
        m == spec_mat_mul(*l, *r),
{
    Mat4 {
        r0c0: dot(l.r0c0, r.r0c0, l.r0c1, r.r1c0, l.r0c2, r.r2c0, l.r0c3, r.r3c0),
        r0c1: dot(l.r0c0, r.r0c1, l.r0c1, r.r1c1, l.r0c2, r.r2c1, l.r0c3, r.r3c1),
        r0c2: dot(l.r0c0, r.r0c2, l.r0c1, r.r1c2, l.r0c2, r.r2c2, l.r0c3, r.r3c2),
        r0c3: dot(l.r0c0, r.r0c3, l.r0c1, r.r1c3, l.r0c2, r.r2c3, l.r0c3, r.r3c3),
        r1c0: dot(l.r1c0, r.r0c0, l.r1c1, r.r1c0, l.r1c2, r.r2c0, l.r1c3, r.r3c0),
        r1c1: dot(l.r1c0, r.r0c1, l.r1c1, r.r1c1, l.r1c2, r.r2c1, l.r1c3, r.r3c1),
        r1c2: dot(l.r1c0, r.r0c2, l.r1c1, r.r1c2, l.r1c2, r.r2c2, l.r1c3, r.r3c2),
        r1c3: dot(l.r1c0, r.r0c3, l.r1c1, r.r1c3, l.r1c2, r.r2c3, l.r1c3, r.r3c3),
        r2c0: dot(l.r2c0, r.r0c0, l.r2c1, r.r1c0, l.r2c2, r.r2c0, l.r2c3, r.r3c0),
        r2c1: dot(l.r2c0, r.r0c1, l.r2c1, r.r1c1, l.r2c2, r.r2c1, l.r2c3, r.r3c1),
        r2c2: dot(l.r2c0, r.r0c2, l.r2c1, r.r1c2, l.r2c2, r.r2c2, l.r2c3, r.r3c2),
        r2c3: dot(l.r2c0, r.r0c3, l.r2c1, r.r1c3, l.r2c2, r.r2c3, l.r2c3, r.r3c3),
        r3c0: dot(l.r3c0, r.r0c0, l.r3c1, r.r1c0, l.r3c2, r.r2c0, l.r3c3, r.r3c0),
        r3c1: dot(l.r3c0, r.r0c1, l.r3c1, r.r1c1, l.r3c2, r.r2c1, l.r3c3, r.r3c1),
        r3c2: dot(l.r3c0, r.r0c2, l.r3c1, r.r1c2, l.r3c2, r.r2c2, l.r3c3, r.r3c2),
        r3c3: dot(l.r3c0, r.r0c3, l.r3c1, r.r1c3, l.r3c2, r.r2c3, l.r3c3, r.r3c3),
    }
}

/// The entrywise sum of two matrices.
pub open spec fn spec_mat_add(l: Mat4, r: Mat4) -> Mat4 {
    Mat4 {
        r0c0: f32_add(l.r0c0, r.r0c0),
        r0c1: f32_add(l.r0c1, r.r0c1),
        r0c2: f32_add(l.r0c2, r.r0c2),
        r0c3: f32_add(l.r0c3, r.r0c3),
        r1c0: f32_add(l.r1c0, r.r1c0),
        r1c1: f32_add(l.r1c1, r.r1c1),
        r1c2: f32_add(l.r1c2, r.r1c2),
        r1c3: f32_add(l.r1c3, r.r1c3),
        r2c0: f32_add(l.r2c0, r.r2c0),
        r2c1: f32_add(l.r2c1, r.r2c1),
        r2c2: f32_add(l.r2c2, r.r2c2),
        r2c3: f32_add(l.r2c3, r.r2c3),
        r3c0: f32_add(l.r3c0, r.r3c0),
        r3c1: f32_add(l.r3c1, r.r3c1),
        r3c2: f32_add(l.r3c2, r.r3c2),
        r3c3: f32_add(l.r3c3, r.r3c3),
    }
}

/// Add two matrices entrywise.
pub fn mat_add(l: &Mat4, r: &Mat4) -> (m: Mat4)
    ensures
        m == spec_mat_add(*l, *r),
{
    Mat4 {
        r0c0: add_bits(l.r0c0, r.r0c0),
        r0c1: add_bits(l.r0c1, r.r0c1),
        r0c2: add_bits(l.r0c2, r.r0c2),
        r0c3: add_bits(l.r0c3, r.r0c3),
        r1c0: add_bits(l.r1c0, r.r1c0),
        r1c1: add_bits(l.r1c1, r.r1c1),
        r1c2: add_bits(l.r1c2, r.r1c2),
        r1c3: add_bits(l.r1c3, r.r1c3),
        r2c0: add_bits(l.r2c0, r.r2c0),
        r2c1: add_bits(l.r2c1, r.r2c1),
        r2c2: add_bits(l.r2c2, r.r2c2),
        r2c3: add_bits(l.r2c3, r.r2c3),
        r3c0: add_bits(l.r3c0, r.r3c0),
        r3c1: add_bits(l.r3c1, r.r3c1),
        r3c2: add_bits(l.r3c2, r.r3c2),
        r3c3: add_bits(l.r3c3, r.r3c3),
    }
}

/// The translation matrix moving the origin to `(x, y, z)`.
pub open spec fn spec_translation_mat(x: Scalar, y: Scalar, z: Scalar) -> Mat4 {
    Mat4 { r0c3: x, r1c3: y, r2c3: z, ..spec_identity_mat() }
}

/// Build the translation matrix for `(x, y, z)`.
pub fn translation_mat(x: Scalar, y: Scalar, z: Scalar) -> (m: Mat4)
    ensures
        m == spec_translation_mat(x, y, z),
{
    Mat4 { r0c3: x, r1c3: y, r2c3: z, ..identity_mat() }
}

/// The non-uniform scale matrix with diagonal `(x, y, z, 1)`.
pub open spec fn spec_scale_mat(x: Scalar, y: Scalar, z: Scalar) -> Mat4 {
    Mat4 { r0c0: x, r1c1: y, r2c2: z, ..spec_identity_mat() }
}

/// Build the non-uniform scale matrix for `(x, y, z)`.
pub fn scale_mat(x: Scalar, y: Scalar, z: Scalar) -> (m: Mat4)
    ensures
        m == spec_scale_mat(x, y, z),
{
    Mat4 { r0c0: x, r1c1: y, r2c2: z, ..identity_mat() }
}

/// The rotation matrix about the x axis for an angle with sine `s` and
/// cosine `c`: rows 1 and 2 carry `(c, -s)` and `(s, c)`.
pub open spec fn spec_rotation_x_mat(a: Angle) -> Mat4 {
    Mat4 { r1c1: a.cos, r1c2: spec_neg(a.sin), r2c1: a.sin, r2c2: a.cos, ..spec_identity_mat() }
}

/// Build the rotation matrix about the x axis.
pub fn rotation_x_mat(a: Angle) -> (m: Mat4)
    ensures
        m == spec_rotation_x_mat(a),
{
    Mat4 { r1c1: a.cos, r1c2: neg_bits(a.sin), r2c1: a.sin, r2c2: a.cos, ..identity_mat() }
}

/// The rotation matrix about the y axis for an angle with sine `s` and
/// cosine `c`: rows 0 and 2 carry `(c, s)` and `(-s, c)`.
pub open spec fn spec_rotation_y_mat(a: Angle) -> Mat4 {
    Mat4 { r0c0: a.cos, r0c2: a.sin, r2c0: spec_neg(a.sin), r2c2: a.cos, ..spec_identity_mat() }
}

/// Build the rotation matrix about the y axis.
pub fn rotation_y_mat(a: Angle) -> (m: Mat4)
    ensures
        m == spec_rotation_y_mat(a),
{
    Mat4 { r0c0: a.cos, r0c2: a.sin, r2c0: neg_bits(a.sin), r2c2: a.cos, ..identity_mat() }
}

/// The rotation matrix about the z axis for an angle with sine `s` and
/// cosine `c`: rows 0 and 1 carry `(c, -s)` and `(s, c)`.
pub open spec fn spec_rotation_z_mat(a: Angle) -> Mat4 {
    Mat4 { r0c0: a.cos, r0c1: spec_neg(a.sin), r1c0: a.sin, r1c1: a.cos, ..spec_identity_mat() }
}

/// Build the rotation matrix about the z axis.
pub fn rotation_z_mat(a: Angle) -> (m: Mat4)
    ensures
        m == spec_rotation_z_mat(a),
{
    Mat4 { r0c0: a.cos, r0c1: neg_bits(a.sin), r1c0: a.sin, r1c1: a.cos, ..identity_mat() }
}

/// Build the identity matrix.
pub fn identity_mat() -> (m: Mat4)
    ensures
        m == spec_identity_mat(),
{
    Mat4 {
        r0c0: SCALAR_ONE,
        r0c1: SCALAR_ZERO,
        r0c2: SCALAR_ZERO,
        r0c3: SCALAR_ZERO,
        r1c0: SCALAR_ZERO,
        r1c1: SCALAR_ONE,
        r1c2: SCALAR_ZERO,
        r1c3: SCALAR_ZERO,
        r2c0: SCALAR_ZERO,
        r2c1: SCALAR_ZERO,
        r2c2: SCALAR_ONE,
        r2c3: SCALAR_ZERO,
        r3c0: SCALAR_ZERO,
        r3c1: SCALAR_ZERO,
        r3c2: SCALAR_ZERO,
        r3c3: SCALAR_ONE,
    }
}

/// An affine pose: either a decomposed pose, kept decomposed so that the
/// parts stay independently addressable, or a raw matrix.
#[derive(Clone, Copy, Debug, PartialEq)]
pub enum Transform {
    Components { pos: Vec3, rotation: Angle, scale: Vec3, offset: Vec3 },
    Matrix(Mat4),
}

/// The decomposed pose with zero translation, rotation and offset and unit
/// scale.
pub open spec fn spec_identity_transform() -> Transform {
    Transform::Components {
        pos: Vec3 { x: SCALAR_ZERO, y: SCALAR_ZERO, z: SCALAR_ZERO },
        rotation: Angle { radians: SCALAR_ZERO, sin: SCALAR_ZERO, cos: SCALAR_ONE },
        scale: Vec3 { x: SCALAR_ONE, y: SCALAR_ONE, z: SCALAR_ONE },
        offset: Vec3 { x: SCALAR_ZERO, y: SCALAR_ZERO, z: SCALAR_ZERO },
    }
}

/// The matrix of a decomposed pose: scale, then rotate about the offset,
/// then translate to the position, evaluated in the order the entries are
/// written: the two-by-two rotation-scale block, and a translation column
/// corrected for the pivot offset.
pub open spec fn spec_components_mat(pos: Vec3, rotation: Angle, scale: Vec3, offset: Vec3) -> Mat4 {
    let cr00 = f32_mul(rotation.cos, scale.x);
    let cr01 = f32_mul(spec_neg(rotation.sin), scale.y);
    let cr10 = f32_mul(rotation.sin, scale.x);
    let cr11 = f32_mul(rotation.cos, scale.y);
    let cr03 = f32_add(
        f32_sub(f32_mul(offset.x, f32_sub(SCALAR_ONE, cr00)), f32_mul(offset.y, cr01)),
        pos.x,
    );
    let cr13 = f32_add(
        f32_sub(f32_mul(offset.y, f32_sub(SCALAR_ONE, cr11)), f32_mul(offset.x, cr10)),
        pos.y,
    );
    Mat4 {
        r0c0: cr00,
        r0c1: cr01,
        r0c2: SCALAR_ZERO,
        r0c3: cr03,
        r1c0: cr10,
        r1c1: cr11,
        r1c2: SCALAR_ZERO,
        r1c3: cr13,
        r2c0: SCALAR_ZERO,
        r2c1: SCALAR_ZERO,
        r2c2: SCALAR_ONE,
        r2c3: SCALAR_ZERO,
        r3c0: SCALAR_ZERO,
        r3c1: SCALAR_ZERO,
        r3c2: SCALAR_ZERO,
        r3c3: SCALAR_ONE,
    }
}

/// The pose after its destination is overwritten: a decomposed pose takes
/// the new position, a raw matrix is left unchanged.
pub open spec fn spec_dest(t: Transform, x: Scalar, y: Scalar, z: Scalar) -> Transform {
    match t {
        Transform::Matrix(m) => t,
        Transform::Components { pos, rotation, scale, offset } => Transform::Components {
            pos: Vec3 { x, y, z },
            rotation,
            scale,
            offset,
        },
    }
}

/// The pose after a translation: a decomposed pose adds the delta to its
/// position, a raw matrix is left-multiplied by the translation matrix.
pub open spec fn spec_translated(t: Transform, x: Scalar, y: Scalar, z: Scalar) -> Transform {
    match t {
        Transform::Matrix(m) => Transform::Matrix(spec_mat_mul(spec_translation_mat(x, y, z), m)),
        Transform::Components { pos, rotation, scale, offset } => Transform::Components {
            pos: Vec3 { x: f32_add(pos.x, x), y: f32_add(pos.y, y), z: f32_add(pos.z, z) },
            rotation,
            scale,
            offset,
        },
    }
}

/// The pose after a per-axis rotation: a raw matrix is left-multiplied by
/// the entrywise sum of the three elementary rotation matrices; a
/// decomposed pose is left unchanged (wiring the stored angle to this
/// mutator is an open gap of the composition design).
pub open spec fn spec_rotated(t: Transform, x: Angle, y: Angle, z: Angle) -> Transform {
    match t {
        Transform::Matrix(m) => Transform::Matrix(
            spec_mat_mul(
                spec_mat_add(
                    spec_mat_add(spec_rotation_x_mat(x), spec_rotation_y_mat(y)),
                    spec_rotation_z_mat(z),
                ),
                m,
            ),
        ),
        Transform::Components { .. } => t,
    }
}

/// The pose after its rotation is overwritten: a decomposed pose takes the
/// new angle, a raw matrix is left unchanged.
pub open spec fn spec_rotation_set(t: Transform, r: Angle) -> Transform {
    match t {
        Transform::Matrix(m) => t,
        Transform::Components { pos, rotation, scale, offset } => Transform::Components {
            pos,
            rotation: r,
            scale,
            offset,
        },
    }
}

/// The pose after its scale is overwritten: a decomposed pose takes the new
/// scale, a raw matrix is left-multiplied by the scale matrix.
pub open spec fn spec_scaled(t: Transform, x: Scalar, y: Scalar, z: Scalar) -> Transform {
    match t {
        Transform::Matrix(m) => Transform::Matrix(spec_mat_mul(spec_scale_mat(x, y, z), m)),
        Transform::Components { pos, rotation, scale, offset } => Transform::Components {
            pos,
            rotation,
            scale: Vec3 { x, y, z },
            offset,
        },
    }
}

/// The matrix a transform renders with, whatever its shape.
pub open spec fn spec_transform_mat(t: Transform) -> Mat4 {
    match t {
        Transform::Matrix(m) => m,
        Transform::Components { pos, rotation, scale, offset } => spec_components_mat(
            pos,
            rotation,
            scale,
            offset,
        ),
    }
}

impl Transform {
    /// The decomposed pose that renders unmoved: zero translation, rotation
    /// and offset, unit scale.
    pub fn identity() -> (t: Transform)
        ensures
            t == spec_identity_transform(),
    {
        Transform::Components {
            pos: Vec3 { x: SCALAR_ZERO, y: SCALAR_ZERO, z: SCALAR_ZERO },
            rotation: Angle::zero(),
            scale: Vec3 { x: SCALAR_ONE, y: SCALAR_ONE, z: SCALAR_ONE },
            offset: Vec3 { x: SCALAR_ZERO, y: SCALAR_ZERO, z: SCALAR_ZERO },
        }
    }

    /// The render matrix of this pose.  The identity pose yields the
    /// identity matrix (up to the sign of zero, as binary32 `==` compares).
    pub fn as_mat4(&self) -> (m: Mat4)
        ensures
            m == spec_transform_mat(*self),
            *self == spec_identity_transform() ==> spec_mat_float_eq(m, spec_identity_mat()),
    {
        match self {
            Transform::Matrix(mat) => *mat,
            Transform::Components { pos, rotation, scale, offset } => {
                let sinr: Scalar = rotation.sin;
                let cosr: Scalar = rotation.cos;
                let cr00: Scalar = mul_bits(cosr, scale.x);
                let cr01: Scalar = mul_bits(neg_bits(sinr), scale.y);
                let cr10: Scalar = mul_bits(sinr, scale.x);
                let cr11: Scalar = mul_bits(cosr, scale.y);
                let cr03: Scalar = add_bits(
                    sub_bits(
                        mul_bits(offset.x, sub_bits(SCALAR_ONE, cr00)),
                        mul_bits(offset.y, cr01),
                    ),
                    pos.x,
                );
                let cr13: Scalar = add_bits(
                    sub_bits(
                        mul_bits(offset.y, sub_bits(SCALAR_ONE, cr11)),
                        mul_bits(offset.x, cr10),
                    ),
                    pos.y,
                );
                Mat4 {
                    r0c0: cr00,
                    r0c1: cr01,
                    r0c2: SCALAR_ZERO,
                    r0c3: cr03,
                    r1c0: cr10,
                    r1c1: cr11,
                    r1c2: SCALAR_ZERO,
                    r1c3: cr13,
                    r2c0: SCALAR_ZERO,
                    r2c1: SCALAR_ZERO,
                    r2c2: SCALAR_ONE,
                    r2c3: SCALAR_ZERO,
                    r3c0: SCALAR_ZERO,
                    r3c1: SCALAR_ZERO,
                    r3c2: SCALAR_ZERO,
                    r3c3: SCALAR_ONE,
                }
            },
        }
    }

    /// Overwrite the position of a decomposed pose; a raw matrix has no
    /// stored destination and is left unchanged.
    pub fn dest(&mut self, x: Scalar, y: Scalar, z: Scalar)
        ensures
            *final(self) == spec_dest(*old(self), x, y, z),
    {
        let t = *self;
        match t {
            Transform::Matrix(_) => {
            },
            Transform::Components { pos: _, rotation, scale, offset } => {
                *self = Transform::Components { pos: Vec3 { x, y, z }, rotation, scale, offset };
            },
        }
    }

    /// Accumulate a translation: a decomposed pose adds the delta to its
    /// position, a raw matrix is left-multiplied by the translation matrix.
    pub fn translate(&mut self, x: Scalar, y: Scalar, z: Scalar)
        ensures
            *final(self) == spec_translated(*old(self), x, y, z),
    {
        let t = *self;
        match t {
            Transform::Matrix(m) => {
                *self = Transform::Matrix(mat_mul(&translation_mat(x, y, z), &m));
            },
            Transform::Components { pos, rotation, scale, offset } => {
                *self = Transform::Components {
                    pos: Vec3 {
                        x: add_bits(pos.x, x),
                        y: add_bits(pos.y, y),
                        z: add_bits(pos.z, z),
                    },
                    rotation,
                    scale,
                    offset,
                };
            },
        }
    }

    /// Rotate by per-axis angles: a raw matrix is left-multiplied by the
    /// entrywise sum of the three elementary rotation matrices; a
    /// decomposed pose is left unchanged (wiring the stored angle to this
    /// mutator is an open gap of the composition design).
    pub fn rotate(&mut self, x: Angle, y: Angle, z: Angle)
        ensures
            *final(self) == spec_rotated(*old(self), x, y, z),
    {
        let t = *self;
        match t {
            Transform::Matrix(m) => {
                let rot = mat_add(&mat_add(&rotation_x_mat(x), &rotation_y_mat(y)), &rotation_z_mat(z));
                *self = Transform::Matrix(mat_mul(&rot, &m));
            },
            Transform::Components { .. } => {
            },
        }
    }

    /// Overwrite the rotation of a decomposed pose; a raw matrix keeps no
    /// separate rotation and is left unchanged.
    pub fn rotate_value(&mut self, r: Angle)
        ensures
            *final(self) == spec_rotation_set(*old(self), r),
    {
        let t = *self;
        match t {
            Transform::Matrix(_) => {
            },
            Transform::Components { pos, rotation: _, scale, offset } => {
                *self = Transform::Components { pos, rotation: r, scale, offset };
            },
        }
    }

    /// Overwrite the scale of a decomposed pose; a raw matrix is
    /// left-multiplied by the non-uniform scale matrix.
    pub fn nonuniform_scale(&mut self, x: Scalar, y: Scalar, z: Scalar)
        ensures
            *final(self) == spec_scaled(*old(self), x, y, z),
    {
        let t = *self;
        match t {
            Transform::Matrix(m) => {
                *self = Transform::Matrix(mat_mul(&scale_mat(x, y, z), &m));
            },
            Transform::Components { pos, rotation, scale: _, offset } => {
                *self = Transform::Components { pos, rotation, scale: Vec3 { x, y, z }, offset };
            },
        }
    }
}

impl Default for Transform {
    /// The identity pose.
    fn default() -> (t: Transform)
        ensures
            t == spec_identity_transform(),
    {
        Transform::identity()
    }
}

/// Translating the identity pose twice by a delta lands exactly where one
/// translation by the doubled delta lands.  The two resulting poses are
/// returned and stated equal.  The law asks that no delta component be a
/// NaN or a negative zero; beyond those, binary32 doubling is exact.
pub fn translate_twice_matches_doubled(dx: Scalar, dy: Scalar, dz: Scalar) -> (p: (
    Transform,
    Transform,
))
    requires
        !is_nan_bits(dx) && dx != SCALAR_NEG_ZERO,
        !is_nan_bits(dy) && dy != SCALAR_NEG_ZERO,
        !is_nan_bits(dz) && dz != SCALAR_NEG_ZERO,
    ensures
        p.0 == p.1,
{
    // These sums against zero, and the doublings below, surface the
    // exact-case guarantees of binary32 addition that the equality rests
    // on; their values feed no further computation.
    let _fx = add_bits(SCALAR_ZERO, dx);
    let _fy = add_bits(SCALAR_ZERO, dy);
    let _fz = add_bits(SCALAR_ZERO, dz);
    let mut twice = Transform::identity();
    twice.translate(dx, dy, dz);
    twice.translate(dx, dy, dz);
    let ddx = add_bits(dx, dx);
    let ddy = add_bits(dy, dy);
    let ddz = add_bits(dz, dz);
    let _gx = add_bits(SCALAR_ZERO, ddx);
    let _gy = add_bits(SCALAR_ZERO, ddy);
    let _gz = add_bits(SCALAR_ZERO, ddz);
    let mut once = Transform::identity();
    once.translate(ddx, ddy, ddz);
    (twice, once)
}

} // verus!
