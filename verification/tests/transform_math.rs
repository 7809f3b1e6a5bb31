//! Transforms: matrix conversion against machine float arithmetic.

use ledge::graphics::transform::{
    mat_mul, translation_mat, Angle, Mat4, Transform, Vec3,
    translate_twice_matches_doubled,
};

fn angle(radians: f32) -> Angle {
    let (s, c) = radians.sin_cos();
    Angle {
        radians: radians.to_bits(),
        sin: s.to_bits(),
        cos: c.to_bits(),
    }
}

fn vec3(x: f32, y: f32, z: f32) -> Vec3 {
    Vec3 {
        x: x.to_bits(),
        y: y.to_bits(),
        z: z.to_bits(),
    }
}

/// The matrix entries the decomposed shape produces, evaluated with
/// machine floats in the same order.
fn expected_components_mat(
    pos: (f32, f32, f32),
    rot: f32,
    scale: (f32, f32, f32),
    offset: (f32, f32, f32),
) -> [[f32; 4]; 4] {
    let (sinr, cosr) = rot.sin_cos();
    let cr00 = cosr * scale.0;
    let cr01 = -sinr * scale.1;
    let cr10 = sinr * scale.0;
    let cr11 = cosr * scale.1;
    let cr03 = offset.0 * (1.0 - cr00) - offset.1 * cr01 + pos.0;
    let cr13 = offset.1 * (1.0 - cr11) - offset.0 * cr10 + pos.1;
    [
        [cr00, cr01, 0.0, cr03],
        [cr10, cr11, 0.0, cr13],
        [0.0, 0.0, 1.0, 0.0],
        [0.0, 0.0, 0.0, 1.0],
    ]
}

fn assert_mat_is(m: &Mat4, rows: [[f32; 4]; 4]) {
    let got = [
        [m.r0c0, m.r0c1, m.r0c2, m.r0c3],
        [m.r1c0, m.r1c1, m.r1c2, m.r1c3],
        [m.r2c0, m.r2c1, m.r2c2, m.r2c3],
        [m.r3c0, m.r3c1, m.r3c2, m.r3c3],
    ];
    for i in 0..4 {
        for j in 0..4 {
            assert_eq!(
                got[i][j],
                rows[i][j].to_bits(),
                "entry ({i},{j}): got {} want {}",
                f32::from_bits(got[i][j]),
                rows[i][j]
            );
        }
    }
}

#[test]
fn identity_as_mat4_is_identity_under_float_eq() {
    let m = Transform::identity().as_mat4();
    let entries = [
        [m.r0c0, m.r0c1, m.r0c2, m.r0c3],
        [m.r1c0, m.r1c1, m.r1c2, m.r1c3],
        [m.r2c0, m.r2c1, m.r2c2, m.r2c3],
        [m.r3c0, m.r3c1, m.r3c2, m.r3c3],
    ];
    for i in 0..4 {
        for j in 0..4 {
            let want = if i == j { 1.0f32 } else { 0.0f32 };
            assert_eq!(f32::from_bits(entries[i][j]), want, "entry ({i},{j})");
        }
    }
}

#[test]
fn components_as_mat4_matches_machine_formula() {
    let pos = (3.5f32, -1.25f32, 0.5f32);
    let rot = 1.2f32;
    let scale = (2.0f32, 0.75f32, 1.0f32);
    let offset = (0.5f32, 0.25f32, 0.0f32);
    let t = Transform::Components {
        pos: vec3(pos.0, pos.1, pos.2),
        rotation: angle(rot),
        scale: vec3(scale.0, scale.1, scale.2),
        offset: vec3(offset.0, offset.1, offset.2),
    };
    assert_mat_is(&t.as_mat4(), expected_components_mat(pos, rot, scale, offset));
}

#[test]
fn translate_accumulates_on_components() {
    let mut t = Transform::identity();
    t.translate(1.5f32.to_bits(), 2.5f32.to_bits(), (-3.0f32).to_bits());
    t.translate(1.5f32.to_bits(), 2.5f32.to_bits(), (-3.0f32).to_bits());
    match t {
        Transform::Components { pos, .. } => {
            assert_eq!(pos.x, 3.0f32.to_bits());
            assert_eq!(pos.y, 5.0f32.to_bits());
            assert_eq!(pos.z, (-6.0f32).to_bits());
        }
        Transform::Matrix(_) => panic!("translate changed the shape"),
    }
}

#[test]
fn translate_twice_equals_one_doubled_translation() {
    let (twice, once) = translate_twice_matches_doubled(
        1.5f32.to_bits(),
        (-0.25f32).to_bits(),
        7.0f32.to_bits(),
    );
    assert_eq!(twice, once);
}

#[test]
fn dest_overwrites_position() {
    let mut t = Transform::identity();
    t.translate(9.0f32.to_bits(), 9.0f32.to_bits(), 9.0f32.to_bits());
    t.dest(1.0f32.to_bits(), 2.0f32.to_bits(), 3.0f32.to_bits());
    match t {
        Transform::Components { pos, .. } => {
            assert_eq!(pos, vec3(1.0, 2.0, 3.0));
        }
        Transform::Matrix(_) => panic!("dest changed the shape"),
    }
}

#[test]
fn rotate_value_overwrites_rotation() {
    let mut t = Transform::identity();
    let a = angle(0.7);
    t.rotate_value(a);
    match t {
        Transform::Components { rotation, .. } => assert_eq!(rotation, a),
        Transform::Matrix(_) => panic!("rotate_value changed the shape"),
    }
}

#[test]
fn rotate_leaves_components_shape_unchanged() {
    let mut t = Transform::identity();
    let before = t.clone();
    t.rotate(angle(0.3), angle(0.6), angle(0.9));
    assert_eq!(t, before);
}

#[test]
fn nonuniform_scale_overwrites_scale() {
    let mut t = Transform::identity();
    t.nonuniform_scale(2.0f32.to_bits(), 3.0f32.to_bits(), 4.0f32.to_bits());
    match t {
        Transform::Components { scale, .. } => assert_eq!(scale, vec3(2.0, 3.0, 4.0)),
        Transform::Matrix(_) => panic!("nonuniform_scale changed the shape"),
    }
}

#[test]
fn matrix_shape_translate_left_multiplies() {
    let identity = Transform::identity().as_mat4();
    let mut t = Transform::Matrix(identity);
    t.translate(4.0f32.to_bits(), 5.0f32.to_bits(), 6.0f32.to_bits());
    let m = match t {
        Transform::Matrix(m) => m,
        Transform::Components { .. } => panic!("translate changed the shape"),
    };
    // Left-multiplying the identity by the translation matrix keeps every
    // finite entry; the products against ones and zeroes are exact.
    let expect = mat_mul(
        &translation_mat(4.0f32.to_bits(), 5.0f32.to_bits(), 6.0f32.to_bits()),
        &identity,
    );
    assert_eq!(m, expect);
    assert_eq!(f32::from_bits(m.r0c3), 4.0);
    assert_eq!(f32::from_bits(m.r1c3), 5.0);
    assert_eq!(f32::from_bits(m.r2c3), 6.0);
    assert_eq!(f32::from_bits(m.r0c0), 1.0);
}

#[test]
fn matrix_shape_rotate_sums_elementary_rotations() {
    let identity = Transform::identity().as_mat4();
    let mut t = Transform::Matrix(identity);
    let (ax, ay, az) = (0.3f32, 0.6f32, 0.9f32);
    t.rotate(angle(ax), angle(ay), angle(az));
    let m = match t {
        Transform::Matrix(m) => m,
        Transform::Components { .. } => panic!("rotate changed the shape"),
    };
    // The rotation factor is the entrywise sum of the three elementary
    // rotation matrices; multiplying it by the identity keeps its entries.
    let (sx, cx) = ax.sin_cos();
    let (sy, cy) = ay.sin_cos();
    let (sz, cz) = az.sin_cos();
    let rx: [[f32; 4]; 4] = [
        [1.0, 0.0, 0.0, 0.0],
        [0.0, cx, -sx, 0.0],
        [0.0, sx, cx, 0.0],
        [0.0, 0.0, 0.0, 1.0],
    ];
    let ry: [[f32; 4]; 4] = [
        [cy, 0.0, sy, 0.0],
        [0.0, 1.0, 0.0, 0.0],
        [-sy, 0.0, cy, 0.0],
        [0.0, 0.0, 0.0, 1.0],
    ];
    let rz: [[f32; 4]; 4] = [
        [cz, -sz, 0.0, 0.0],
        [sz, cz, 0.0, 0.0],
        [0.0, 0.0, 1.0, 0.0],
        [0.0, 0.0, 0.0, 1.0],
    ];
    let mut sum = [[0.0f32; 4]; 4];
    for i in 0..4 {
        for j in 0..4 {
            sum[i][j] = rx[i][j] + ry[i][j] + rz[i][j];
        }
    }
    // Multiplying by the identity: each entry is a dot product whose only
    // non-trivial term multiplies by 1.0; the zero terms contribute +0.0,
    // which binary32 addition absorbs exactly for these finite entries.
    let got = [
        [m.r0c0, m.r0c1, m.r0c2, m.r0c3],
        [m.r1c0, m.r1c1, m.r1c2, m.r1c3],
        [m.r2c0, m.r2c1, m.r2c2, m.r2c3],
        [m.r3c0, m.r3c1, m.r3c2, m.r3c3],
    ];
    for i in 0..4 {
        for j in 0..4 {
            assert_eq!(
                f32::from_bits(got[i][j]),
                sum[i][j],
                "entry ({i},{j})"
            );
        }
    }
}

#[test]
fn matrix_shape_nonuniform_scale_left_multiplies() {
    let identity = Transform::identity().as_mat4();
    let mut t = Transform::Matrix(identity);
    t.nonuniform_scale(2.0f32.to_bits(), 3.0f32.to_bits(), 4.0f32.to_bits());
    let m = match t {
        Transform::Matrix(m) => m,
        Transform::Components { .. } => panic!("nonuniform_scale changed the shape"),
    };
    assert_eq!(f32::from_bits(m.r0c0), 2.0);
    assert_eq!(f32::from_bits(m.r1c1), 3.0);
    assert_eq!(f32::from_bits(m.r2c2), 4.0);
    assert_eq!(f32::from_bits(m.r3c3), 1.0);
    assert_eq!(f32::from_bits(m.r0c1), 0.0);
}

#[test]
fn matrix_shape_dest_and_rotate_value_leave_it_unchanged() {
    let base = Transform::Matrix(Transform::identity().as_mat4());
    let mut t = base.clone();
    t.dest(9.0f32.to_bits(), 9.0f32.to_bits(), 9.0f32.to_bits());
    assert_eq!(t, base);
    t.rotate_value(angle(1.0));
    assert_eq!(t, base);
}

#[test]
fn mat_mul_matches_machine_dot_products() {
    let a_rows: [[f32; 4]; 4] = [
        [1.5, 2.0, -0.5, 3.0],
        [0.25, -1.0, 2.5, 0.0],
        [4.0, 0.5, 1.0, -2.0],
        [0.0, 1.0, 0.0, 1.0],
    ];
    let b_rows: [[f32; 4]; 4] = [
        [0.5, 1.0, 0.0, 2.0],
        [1.25, -0.75, 3.0, 0.5],
        [2.0, 0.0, -1.5, 1.0],
        [0.0, 4.0, 0.25, -1.0],
    ];
    let to_mat = |rows: &[[f32; 4]; 4]| Mat4 {
        r0c0: rows[0][0].to_bits(), r0c1: rows[0][1].to_bits(),
        r0c2: rows[0][2].to_bits(), r0c3: rows[0][3].to_bits(),
        r1c0: rows[1][0].to_bits(), r1c1: rows[1][1].to_bits(),
        r1c2: rows[1][2].to_bits(), r1c3: rows[1][3].to_bits(),
        r2c0: rows[2][0].to_bits(), r2c1: rows[2][1].to_bits(),
        r2c2: rows[2][2].to_bits(), r2c3: rows[2][3].to_bits(),
        r3c0: rows[3][0].to_bits(), r3c1: rows[3][1].to_bits(),
        r3c2: rows[3][2].to_bits(), r3c3: rows[3][3].to_bits(),
    };
    let product = mat_mul(&to_mat(&a_rows), &to_mat(&b_rows));
    let mut expect = [[0.0f32; 4]; 4];
    for i in 0..4 {
        for j in 0..4 {
            expect[i][j] = a_rows[i][0] * b_rows[0][j] + a_rows[i][1] * b_rows[1][j]
                + a_rows[i][2] * b_rows[2][j] + a_rows[i][3] * b_rows[3][j];
        }
    }
    assert_mat_is(&product, expect);
}
