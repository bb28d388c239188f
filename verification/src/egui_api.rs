//! Trusted boundary to the `egui` crate.
//!
//! The toolkit's types are declared opaquely; what the verified code needs to
//! know of a value's content is exposed through the two content projections
//! [`delta_set_of`] and [`delta_free_of`] and through thin wrappers whose
//! contracts state only what the crate's own source shows.

use vstd::prelude::*;

use crate::painter::{ClipRect, FramePrimitive, MeshPrimitive, PrimInfo, Primitive};
use crate::texture::{TextureId, TextureImage, TextureImageView, UpdatePos};

verus! {

#[verifier::external_type_specification]
#[verifier::external_body]
pub struct ExContext(egui::Context);

#[verifier::external_type_specification]
#[verifier::external_body]
pub struct ExRawInput(egui::RawInput);

#[verifier::external_type_specification]
#[verifier::external_body]
pub struct ExEvent(egui::Event);

#[verifier::external_type_specification]
#[verifier::external_body]
pub struct ExPlatformOutput(egui::PlatformOutput);

#[verifier::external_type_specification]
#[verifier::external_body]
pub struct ExClippedShape(egui::epaint::ClippedShape);

#[verifier::external_type_specification]
#[verifier::external_body]
pub struct ExTexturesDelta(egui::TexturesDelta);

#[verifier::external_type_specification]
#[verifier::external_body]
pub struct ExClippedPrimitive(egui::epaint::ClippedPrimitive);

#[verifier::external_type_specification]
#[verifier::external_body]
pub struct ExMesh(egui::epaint::Mesh);

#[verifier::external_type_specification]
#[verifier::external_body]
pub struct ExRect(egui::Rect);

/// The texture uploads a `TexturesDelta` carries, in order, each lowered to
/// the identifier and the plain image content.
pub uninterp spec fn delta_set_of(d: egui::TexturesDelta) -> Seq<(TextureId, TextureImageView)>;

/// The texture identifiers a `TexturesDelta` asks to free, in order.
pub uninterp spec fn delta_free_of(d: egui::TexturesDelta) -> Seq<TextureId>;

/// The toolkit events a `RawInput` has queued for the next run, in order.
pub uninterp spec fn input_events_of(r: egui::RawInput) -> Seq<egui::Event>;

/// The context has completed at least one run.  A completed run loads the
/// context's fonts, and they stay loaded from then on (the per-pass font
/// cache always retains the active viewport's entry), which is what
/// tessellation needs.  Only [`ctx_run`] establishes this.
pub uninterp spec fn ctx_ran(ctx: egui::Context) -> bool;

/// The plain part of one tessellated primitive: its clip rectangle's
/// coordinate bit patterns and, for a mesh, the texture it samples.
pub uninterp spec fn prim_info_of(p: egui::ClippedPrimitive) -> PrimInfo;

/// Relies on `egui::Context::default`, which builds a fresh context.
#[verifier::external_body]
pub(crate) fn ctx_default() -> egui::Context {
    egui::Context::default()
}

/// Relies on `egui::Context::run`: feeds the raw input to the toolkit, runs
/// the UI closure, and returns the frame's shapes, the pixels-per-point scale
/// factor (as its bit pattern), the texture delta, and the platform output.
/// What comes back depends on the context's own state and on the closure, so
/// nothing is claimed of it — except that the run completed, which loads the
/// fonts that [`ctx_tessellate`] requires.
#[verifier::external_body]
pub(crate) fn ctx_run<F: FnMut(&egui::Context)>(
    ctx: &mut egui::Context,
    input: egui::RawInput,
    run_ui: F,
) -> (r: (Vec<egui::epaint::ClippedShape>, u32, egui::TexturesDelta, egui::PlatformOutput))
    ensures
        ctx_ran(*final(ctx)),
{
    let egui::FullOutput { platform_output, textures_delta, shapes, pixels_per_point, viewport_output: _ } =
        ctx.run(input, run_ui);
    let scale_bits: u32 = bytemuck::cast(pixels_per_point);
    (shapes, scale_bits, textures_delta, platform_output)
}

/// Relies on `egui::Context::tessellate`, which turns each shape into zero
/// or more clipped primitives; no shapes yield no primitives.  Tessellation
/// fetches the context's fonts before looking at any shape and panics on a
/// context that never ran, so a completed run is required.
#[verifier::external_body]
pub(crate) fn ctx_tessellate(
    ctx: &egui::Context,
    shapes: Vec<egui::epaint::ClippedShape>,
    scale_bits: u32,
) -> (r: Vec<egui::ClippedPrimitive>)
    requires
        ctx_ran(*ctx),
    ensures
        shapes@.len() == 0 ==> r@.len() == 0,
{
    ctx.tessellate(shapes, bytemuck::cast(scale_bits))
}

/// Relies on `egui::Context::wants_pointer_input`; the answer depends on the
/// context's state, so only that a boolean comes back is known.
#[verifier::external_body]
pub(crate) fn ctx_wants_pointer_input(ctx: &egui::Context) -> bool {
    ctx.wants_pointer_input()
}

/// Relies on `egui::Context::wants_keyboard_input`; as above.
#[verifier::external_body]
pub(crate) fn ctx_wants_keyboard_input(ctx: &egui::Context) -> bool {
    ctx.wants_keyboard_input()
}

/// Relies on `egui::TexturesDelta::default`, which holds no uploads and no
/// frees.
#[verifier::external_body]
pub(crate) fn delta_default() -> (r: egui::TexturesDelta)
    ensures
        delta_set_of(r) == Seq::<(TextureId, TextureImageView)>::empty(),
        delta_free_of(r) == Seq::<TextureId>::empty(),
{
    egui::TexturesDelta::default()
}

/// Relies on `egui::TexturesDelta::append`, which concatenates the newer
/// delta's uploads and frees after the present ones.
#[verifier::external_body]
pub(crate) fn delta_append(d: &mut egui::TexturesDelta, newer: egui::TexturesDelta)
    ensures
        delta_set_of(*final(d)) == delta_set_of(*old(d)) + delta_set_of(newer),
        delta_free_of(*final(d)) == delta_free_of(*old(d)) + delta_free_of(newer),
{
    d.append(newer);
}

/// Relies on `std::mem::take`, which hands the delta out and leaves a default
/// (empty) one behind.
#[verifier::external_body]
pub(crate) fn delta_take(d: &mut egui::TexturesDelta) -> (r: egui::TexturesDelta)
    ensures
        delta_set_of(r) == delta_set_of(*old(d)),
        delta_free_of(r) == delta_free_of(*old(d)),
        delta_set_of(*final(d)) == Seq::<(TextureId, TextureImageView)>::empty(),
        delta_free_of(*final(d)) == Seq::<TextureId>::empty(),
{
    std::mem::take(d)
}

/// Relies on the `set` field of `egui::TexturesDelta` being the vector of
/// uploads that [`delta_set_of`] projects.
#[verifier::external_body]
pub(crate) fn delta_set_len(d: &egui::TexturesDelta) -> (r: usize)
    ensures
        r == delta_set_of(*d).len(),
{
    d.set.len()
}

/// Relies on the `set` field of `egui::TexturesDelta`: hands out the `i`-th
/// upload, lowered to plain values (identifier, dimensions, optional region
/// position, and the RGBA bytes of the single `ImageData::Color` variant).
#[verifier::external_body]
pub(crate) fn delta_set_entry(d: &egui::TexturesDelta, i: usize) -> (r: (TextureId, TextureImage))
    requires
        i < delta_set_of(*d).len(),
    ensures
        (r.0, r.1@) == delta_set_of(*d)[i as int],
{
    let (id, delta) = &d.set[i];
    let egui::epaint::ImageData::Color(img) = &delta.image;
    let tid = match id {
        egui::TextureId::Managed(x) => TextureId::Managed(*x),
        egui::TextureId::User(x) => TextureId::User(*x),
    };
    let pos = delta.pos.map(|p| UpdatePos { x: p[0], y: p[1] });
    let bytes: Vec<u8> = bytemuck::cast_slice(img.pixels.as_slice()).to_vec();
    (tid, TextureImage { width: img.width(), height: img.height(), pos, bytes })
}

/// Relies on the `free` field of `egui::TexturesDelta` being the vector of
/// identifiers that [`delta_free_of`] projects.
#[verifier::external_body]
pub(crate) fn delta_free_len(d: &egui::TexturesDelta) -> (r: usize)
    ensures
        r == delta_free_of(*d).len(),
{
    d.free.len()
}

/// Relies on the `free` field of `egui::TexturesDelta`: hands out the `i`-th
/// identifier to free.
#[verifier::external_body]
pub(crate) fn delta_free_entry(d: &egui::TexturesDelta, i: usize) -> (r: TextureId)
    requires
        i < delta_free_of(*d).len(),
    ensures
        r == delta_free_of(*d)[i as int],
{
    match d.free[i] {
        egui::TextureId::Managed(x) => TextureId::Managed(x),
        egui::TextureId::User(x) => TextureId::User(x),
    }
}

/// Relies on `egui::RawInput::default`, a fresh input record with no
/// queued events.
#[verifier::external_body]
pub(crate) fn raw_input_default() -> (r: egui::RawInput)
    ensures
        input_events_of(r) == Seq::<egui::Event>::empty(),
{
    egui::RawInput::default()
}

/// Relies on the `events` field of `egui::RawInput`: queues one toolkit event
/// for the next run, after the ones already queued.
#[verifier::external_body]
pub(crate) fn raw_input_push(input: &mut egui::RawInput, event: egui::Event)
    ensures
        input_events_of(*final(input)) == input_events_of(*old(input)).push(event),
{
    input.events.push(event);
}

/// Relies on the `screen_rect` field of `egui::RawInput`: records the
/// window's rectangle for the next run; the queued events are untouched.
#[verifier::external_body]
pub(crate) fn raw_input_set_screen_rect(input: &mut egui::RawInput, rect: egui::Rect)
    ensures
        input_events_of(*final(input)) == input_events_of(*old(input)),
{
    input.screen_rect = Some(rect);
}

/// Relies on `egui::RawInput::take`, which hands the accumulated input out
/// — the queued events included — and clears the one-frame parts in place.
#[verifier::external_body]
pub(crate) fn raw_input_take(input: &mut egui::RawInput) -> (r: egui::RawInput)
    ensures
        input_events_of(r) == input_events_of(*old(input)),
        input_events_of(*final(input)) == Seq::<egui::Event>::empty(),
{
    input.take()
}

/// Relies on the fields of `egui::ClippedPrimitive`: lowers one tessellated
/// primitive to the model — the clip rectangle's coordinate bit patterns, the
/// primitive kind, and for a mesh its texture identifier together with the
/// mesh itself, carried through opaquely.  The plain part of the result is
/// the primitive's own, projected by [`prim_info_of`]; the opaque mesh value
/// stays unrelated.
#[verifier::external_body]
pub(crate) fn convert_primitive(p: &egui::ClippedPrimitive) -> (r: FramePrimitive)
    ensures
        r.info() == prim_info_of(*p),
{
    let c = &p.clip_rect;
    let clip_rect = ClipRect {
        min_x: c.min.x.to_bits(), min_y: c.min.y.to_bits(),
        max_x: c.max.x.to_bits(), max_y: c.max.y.to_bits() };
    let primitive = match &p.primitive {
        egui::epaint::Primitive::Mesh(m) => Primitive::Mesh(MeshPrimitive {
            texture_id: match m.texture_id {
                egui::TextureId::Managed(x) => TextureId::Managed(x),
                egui::TextureId::User(x) => TextureId::User(x),
            },
            mesh: m.clone(),
        }),
        egui::epaint::Primitive::Callback(_) => Primitive::Callback,
    };
    FramePrimitive { clip_rect, primitive }
}

} // verus!
