//! Draw attributes, asset handles, and keyboard tracking.

use ledge::asset::handle::{Handle, HandleId};
use ledge::asset::Asset;
use ledge::graphics::color::{Color, Rect};
use ledge::graphics::transform::Transform;
use ledge::graphics::{DrawInfo, InstanceData};
use ledge::input::keyboard::KeyboardContext;

#[derive(Debug, PartialEq)]
struct Pixels;

impl Asset for Pixels {}

#[test]
fn draw_info_default_is_white_unit_identity() {
    let info = DrawInfo::default();
    assert_eq!(info.tex_rect, Rect::default());
    assert_eq!(info.color, Color::white());
    assert_eq!(info.transform, Transform::identity());
    assert_eq!(info, DrawInfo::new());
}

#[test]
fn draw_info_reset_restores_defaults() {
    let mut info = DrawInfo::with_color(Color::red());
    info.translate(1.0f32.to_bits(), 2.0f32.to_bits(), 3.0f32.to_bits());
    info.reset();
    assert_eq!(info, DrawInfo::default());
}

#[test]
fn draw_info_builders_set_one_field() {
    let rect = Rect {
        x: 0.1f32.to_bits(),
        y: 0.2f32.to_bits(),
        w: 0.3f32.to_bits(),
        h: 0.4f32.to_bits(),
    };
    let with_rect = DrawInfo::with_rect(rect);
    assert_eq!(with_rect.tex_rect, rect);
    assert_eq!(with_rect.color, Color::white());

    let with_color = DrawInfo::with_color(Color::grey());
    assert_eq!(with_color.color, Color::grey());
    assert_eq!(with_color.tex_rect, Rect::default());

    let mut pose = Transform::identity();
    pose.dest(5.0f32.to_bits(), 6.0f32.to_bits(), 7.0f32.to_bits());
    let with_transform = DrawInfo::with_transform(pose);
    assert_eq!(with_transform.transform, pose);
    assert_eq!(with_transform.color, Color::white());
}

#[test]
fn draw_info_scale_is_uniform_nonuniform_scale() {
    let mut uniform = DrawInfo::default();
    uniform.scale(2.5f32.to_bits());
    let mut spelled_out = DrawInfo::default();
    spelled_out.nonuniform_scale(
        2.5f32.to_bits(),
        2.5f32.to_bits(),
        2.5f32.to_bits(),
    );
    assert_eq!(uniform, spelled_out);
}

#[test]
fn instance_data_packs_rect_color_and_matrix() {
    let mut info = DrawInfo::with_color(Color::grey());
    info.translate(2.0f32.to_bits(), 3.0f32.to_bits(), 0.0f32.to_bits());
    let instance = InstanceData::from(info);
    assert_eq!(instance.src, info.tex_rect);
    assert_eq!(instance.color, Color::grey());
    assert_eq!(instance.transform, info.transform.as_mat4());
    assert_eq!(f32::from_bits(instance.transform.r0c3), 2.0);
    assert_eq!(f32::from_bits(instance.transform.r1c3), 3.0);
}

#[test]
fn handle_ids_have_fixed_sources() {
    assert_eq!(HandleId::random(), HandleId::Id(29481));
    assert_eq!(HandleId::default(), HandleId::Id(0));
    HandleId::new();
}

#[test]
fn handle_round_trips_through_its_id() {
    let handle: Handle<Pixels> = Handle::from(HandleId::Id(12));
    assert_eq!(handle.id, HandleId::Id(12));
    let back: HandleId = HandleId::from(handle.clone());
    assert_eq!(back, HandleId::Id(12));
    assert!(handle == handle.clone());
}

#[test]
fn keyboard_tracks_presses_and_releases() {
    let mut keys = KeyboardContext::new();
    assert_eq!(keys.current_pressed, None);

    keys.set_key(17, true);
    assert_eq!(keys.current_pressed, Some(17));

    keys.set_key(31, true);
    assert_eq!(keys.current_pressed, Some(31));

    keys.set_key(31, false);
    assert_eq!(keys.current_pressed, None);

    // Releasing a key never forgets the one still held.
    keys.set_key(17, false);
    assert_eq!(keys.current_pressed, None);
}
