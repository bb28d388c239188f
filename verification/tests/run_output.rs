//! Replace-and-merge semantics of the run output: repeated runs replace the
//! shapes and the scale factor, merge the texture deltas; a paint-side take
//! drains both and leaves the scale factor.

use egui::epaint::{ColorImage, ImageDelta};
use egui::{Rect, TexturesDelta, TextureOptions};
use egui_sdl2::output::{EguiRunOutput, SCALE_ONE_BITS};

fn upload(id: u64) -> (egui::TextureId, ImageDelta) {
    let image = ColorImage::filled([2, 2], egui::Color32::WHITE);
    (egui::TextureId::User(id), ImageDelta::full(image, TextureOptions::NEAREST))
}

fn noop_shape() -> egui::epaint::ClippedShape {
    egui::epaint::ClippedShape { clip_rect: Rect::EVERYTHING, shape: egui::Shape::Noop }
}

#[test]
fn fresh_output_is_empty_at_scale_one() {
    let out = EguiRunOutput::default();
    assert_eq!(out.shapes.len(), 0);
    assert_eq!(out.pixels_per_point_bits, SCALE_ONE_BITS);
    assert_eq!(out.pixels_per_point_bits, 1.0f32.to_bits());
    assert!(out.textures_delta.set.is_empty());
    assert!(out.textures_delta.free.is_empty());
}

#[test]
fn absorb_replaces_shapes_and_scale_merges_deltas() {
    let mut out = EguiRunOutput::default();

    let d1 = TexturesDelta { set: vec![upload(1)], free: Vec::new() };
    out.absorb(vec![noop_shape(), noop_shape()], 1.5f32.to_bits(), d1);
    assert_eq!(out.shapes.len(), 2);
    assert_eq!(out.pixels_per_point_bits, 1.5f32.to_bits());
    assert_eq!(out.textures_delta.set.len(), 1);

    let d2 = TexturesDelta { set: vec![upload(2)], free: vec![egui::TextureId::Managed(9)] };
    out.absorb(vec![noop_shape()], 2.0f32.to_bits(), d2);

    // Shapes and scale are those of the second run alone.
    assert_eq!(out.shapes.len(), 1);
    assert_eq!(out.pixels_per_point_bits, 2.0f32.to_bits());
    // The deltas accumulated, in order.
    assert_eq!(out.textures_delta.set.len(), 2);
    assert_eq!(out.textures_delta.set[0].0, egui::TextureId::User(1));
    assert_eq!(out.textures_delta.set[1].0, egui::TextureId::User(2));
    assert_eq!(out.textures_delta.free, vec![egui::TextureId::Managed(9)]);
}

#[test]
fn take_drains_delta_and_shapes_but_keeps_scale() {
    let mut out = EguiRunOutput::default();
    let delta = TexturesDelta { set: vec![upload(1)], free: vec![egui::TextureId::User(3)] };
    out.absorb(vec![noop_shape()], 1.25f32.to_bits(), delta);

    let (taken_delta, taken_shapes) = out.take();
    assert_eq!(taken_delta.set.len(), 1);
    assert_eq!(taken_delta.set[0].0, egui::TextureId::User(1));
    assert_eq!(taken_delta.free, vec![egui::TextureId::User(3)]);
    assert_eq!(taken_shapes.len(), 1);

    assert!(out.textures_delta.set.is_empty());
    assert!(out.textures_delta.free.is_empty());
    assert_eq!(out.shapes.len(), 0);
    // The scale factor reflects the most recent run and survives the take.
    assert_eq!(out.pixels_per_point_bits, 1.25f32.to_bits());

    // A second take hands out nothing.
    let (again_delta, again_shapes) = out.take();
    assert!(again_delta.set.is_empty() && again_delta.free.is_empty());
    assert!(again_shapes.is_empty());
}
