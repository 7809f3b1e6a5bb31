//! Colors, rectangles, and the scalar conversions they rest on.

use ledge::graphics::color::{Color, Rect};
use ledge::scalar::{bits_to_u8, u8_to_bits};

#[test]
fn rect_default_is_unit_rectangle() {
    let r = Rect::default();
    assert_eq!(r.x, 0.0f32.to_bits());
    assert_eq!(r.y, 0.0f32.to_bits());
    assert_eq!(r.w, 1.0f32.to_bits());
    assert_eq!(r.h, 1.0f32.to_bits());
}

#[test]
fn rect_as_vec_lists_components_in_order() {
    let r = Rect {
        x: 0.25f32.to_bits(),
        y: 0.5f32.to_bits(),
        w: 0.75f32.to_bits(),
        h: 1.5f32.to_bits(),
    };
    assert_eq!(
        r.as_vec(),
        [
            0.25f32.to_bits(),
            0.5f32.to_bits(),
            0.75f32.to_bits(),
            1.5f32.to_bits()
        ]
    );
}

#[test]
fn color_black_is_opaque_black() {
    assert_eq!(
        Color::black().as_arr(),
        [0.0f32.to_bits(), 0.0f32.to_bits(), 0.0f32.to_bits(), 1.0f32.to_bits()]
    );
}

#[test]
fn color_constants_match_their_floats() {
    assert_eq!(Color::white().as_arr(), [1.0f32.to_bits(); 4]);
    assert_eq!(
        Color::grey().as_arr(),
        [0.25f32.to_bits(), 0.25f32.to_bits(), 0.25f32.to_bits(), 1.0f32.to_bits()]
    );
    assert_eq!(
        Color::red().as_arr(),
        [1.0f32.to_bits(), 0.05f32.to_bits(), 0.05f32.to_bits(), 1.0f32.to_bits()]
    );
    assert_eq!(Color::transparent().as_arr(), [0.0f32.to_bits(); 4]);
}

#[test]
fn white_as_u8_arr_saturates_to_255() {
    assert_eq!(Color::white().as_u8_arr(), [255, 255, 255, 255]);
}

#[test]
fn black_as_u8_arr_is_opaque_black() {
    assert_eq!(Color::black().as_u8_arr(), [0, 0, 0, 255]);
}

#[test]
fn as_u8_arr_matches_machine_floats() {
    let floats = [0.5f32, 0.2f32, 0.997f32, -0.25f32];
    let c = Color([
        floats[0].to_bits(),
        floats[1].to_bits(),
        floats[2].to_bits(),
        floats[3].to_bits(),
    ]);
    let expected = [
        (floats[0] * 255.0) as u8,
        (floats[1] * 255.0) as u8,
        (floats[2] * 255.0) as u8,
        (floats[3] * 255.0) as u8,
    ];
    assert_eq!(c.as_u8_arr(), expected);
}

#[test]
fn as_u8_vec_matches_as_u8_arr() {
    let c = Color([
        0.1f32.to_bits(),
        0.6f32.to_bits(),
        1.25f32.to_bits(),
        f32::NAN.to_bits(),
    ]);
    assert_eq!(c.as_u8_vec(), c.as_u8_arr().to_vec());
}

#[test]
fn rgba_matches_machine_division() {
    let c = Color::rgba(10, 20, 30, 40);
    assert_eq!(
        c.as_arr(),
        [
            (10.0f32 / 255.0).to_bits(),
            (20.0f32 / 255.0).to_bits(),
            (30.0f32 / 255.0).to_bits(),
            (40.0f32 / 255.0).to_bits()
        ]
    );
}

#[test]
fn rgba_extremes_are_exact() {
    assert_eq!(Color::rgba(0, 0, 0, 255).as_arr(), Color::black().as_arr());
    assert_eq!(Color::rgba(255, 255, 255, 255).as_arr(), Color::white().as_arr());
}

#[test]
fn color_from_array_round_trips() {
    let arr = [1.0f32.to_bits(), 0.5f32.to_bits(), 0.0f32.to_bits(), 0.75f32.to_bits()];
    let c = Color::from(arr);
    assert_eq!(c.as_arr(), arr);
}

#[test]
fn u8_to_bits_matches_machine_conversion() {
    for v in 0..=255u8 {
        assert_eq!(u8_to_bits(v), (v as f32).to_bits(), "byte {v}");
    }
}

#[test]
fn bits_to_u8_matches_machine_cast() {
    let cases = [
        0.0f32, -0.0, 0.4, 0.6, 1.0, 1.9, 127.5, 254.9, 255.0, 255.5, 256.0, 1000.0, -1.0,
        -255.0, f32::INFINITY, f32::NEG_INFINITY, f32::NAN, 3.5e-20, 6.5e20,
    ];
    for v in cases {
        assert_eq!(bits_to_u8(v.to_bits()), v as u8, "value {v}");
    }
    for v in 0..=255u8 {
        let f = v as f32 + 0.5;
        assert_eq!(bits_to_u8(f.to_bits()), f as u8, "value {f}");
    }
}
