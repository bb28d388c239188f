//! Integration with the OpenGL painter of `egui_glow` for hosts that hand
//! this crate a GL context.
//!
//! [`EguiGlow`] composes the toolkit context, the event state, and the
//! pending run output with `egui_glow`'s own painter.  The run/paint
//! protocol is the verified one: runs are absorbed with replace-and-merge
//! semantics, a paint drains the pending output and hands exactly the
//! drained shapes and delta to the GL painter — so a second paint without a
//! run hands it nothing to upload, draw, or free.  The GL calls themselves
//! live in `egui_glow`.

use vstd::prelude::*;

use std::sync::Arc;

use crate::egui_api::{ctx_default, ctx_ran, ctx_tessellate, delta_free_of, delta_set_of, prim_info_of};
use crate::output::{EguiRunOutput, FrameView, SCALE_ONE_BITS, absorb_spec};
use crate::painter::PrimInfo;
use crate::state::{EventResponse, HostEvent, State, requests_repaint};
use crate::texture::{TextureId, TextureImageView};

verus! {

#[verifier::external_type_specification]
#[verifier::external_body]
pub struct ExGlowContext(egui_glow::glow::Context);

/// The `egui_glow::Painter`, held opaquely: its type cannot be declared
/// here (the crate has a `Painter` of its own), so the one field hides it.
#[verifier::external_body]
pub struct GlPainter {
    inner: egui_glow::Painter,
}

/// The painter still owns its GL resources: construction establishes this
/// and only [`glow_destroy`] revokes it.  The painter panics when asked to
/// paint after destruction, so [`glow_paint`] requires it.
pub uninterp spec fn gl_alive(p: GlPainter) -> bool;

/// The frames this painter has been handed, in order: for each paint call
/// the delta's uploads and frees, the plain parts of the primitives, the
/// scale factor bits, and the screen size.  A fresh painter has been handed
/// none; each [`glow_paint`] appends exactly one.  This is what lets a
/// caller's contract owe the delegation itself, not only its own drain.
pub uninterp spec fn gl_frames(p: GlPainter) -> Seq<(
    Seq<(TextureId, TextureImageView)>,
    Seq<TextureId>,
    Seq<PrimInfo>,
    u32,
    u32,
    u32,
)>;

/// Which GLSL dialect the painter's shaders target; `None` at construction
/// lets the painter detect it.
#[derive(Clone, Copy, PartialEq, Eq, Structural, Debug)]
pub enum ShaderDialect {
    Gl120,
    Gl140,
    Es100,
    Es300,
}

/// Relies on `egui_glow::Painter::new`: builds the GL painter — live, with
/// its `destroyed` flag unset, having painted nothing yet — or reports why
/// it cannot (the error text is handed through).  Whether construction
/// succeeds depends on the GL context, so nothing more is claimed of it.
#[verifier::external_body]
fn glow_painter_new(
    gl: Arc<egui_glow::glow::Context>,
    shader_version: Option<ShaderDialect>,
    dithering: bool,
) -> (r: Result<GlPainter, String>)
    ensures
        r is Ok ==> gl_alive(r->Ok_0),
        r is Ok ==> gl_frames(r->Ok_0) == Seq::<(
            Seq<(TextureId, TextureImageView)>,
            Seq<TextureId>,
            Seq<PrimInfo>,
            u32,
            u32,
            u32,
        )>::empty(),
{
    let version = match shader_version {
        None => None,
        Some(ShaderDialect::Gl120) => Some(egui_glow::ShaderVersion::Gl120),
        Some(ShaderDialect::Gl140) => Some(egui_glow::ShaderVersion::Gl140),
        Some(ShaderDialect::Es100) => Some(egui_glow::ShaderVersion::Es100),
        Some(ShaderDialect::Es300) => Some(egui_glow::ShaderVersion::Es300),
    };
    match egui_glow::Painter::new(gl, "", version, dithering) {
        Ok(inner) => Ok(GlPainter { inner }),
        Err(e) => Err(e.to_string()),
    }
}

/// Relies on `egui_glow::Painter::paint_and_update_textures`: uploads the
/// delta's textures, paints the primitives at the given screen size and
/// scale factor, and frees the delta's freed textures — one more handed
/// frame, carrying exactly these arguments.  The painter asserts it is not
/// destroyed, so a live painter is required; painting keeps it live.
#[verifier::external_body]
fn glow_paint(
    painter: &mut GlPainter,
    width: u32,
    height: u32,
    scale_bits: u32,
    prims: &Vec<egui::ClippedPrimitive>,
    delta: &egui::TexturesDelta,
)
    requires
        gl_alive(*old(painter)),
    ensures
        gl_alive(*final(painter)),
        gl_frames(*final(painter)) == gl_frames(*old(painter)).push((
            delta_set_of(*delta),
            delta_free_of(*delta),
            prims@.map_values(|cp: egui::ClippedPrimitive| prim_info_of(cp)),
            scale_bits,
            width,
            height,
        )),
{
    painter.inner.paint_and_update_textures([width, height], bytemuck::cast(scale_bits), prims, delta);
}

/// Relies on `egui_glow::Painter::destroy`, which frees every GL resource
/// the painter holds and sets its `destroyed` flag; a second call does
/// nothing.  Either way the painter is no longer live.
#[verifier::external_body]
fn glow_destroy(painter: &mut GlPainter)
    ensures
        !gl_alive(*final(painter)),
{
    painter.inner.destroy();
}

/// Integration between the toolkit and the `egui_glow` OpenGL painter.
///
/// After [`EguiGlow::destroy`] the painter's GL resources are gone and the
/// value is terminal: [`EguiGlow::paint`] may no longer be called.  The
/// public `destroyed` flag is what a host tests before painting; the
/// well-formedness [`EguiGlow::wf`] ties it to the painter itself.
pub struct EguiGlow {
    pub ctx: egui::Context,
    pub state: State,
    pub run_output: EguiRunOutput,
    pub painter: GlPainter,
    /// Set once [`EguiGlow::destroy`] has run; [`EguiGlow::paint`] requires
    /// it to be unset.
    pub destroyed: bool,
}

impl EguiGlow {
    /// Whether [`EguiGlow::destroy`] has run.
    pub open spec fn is_destroyed(self) -> bool {
        self.destroyed
    }

    /// The `destroyed` flag tells the truth: it is unset exactly while the
    /// painter is live.  Constructors establish this and every method keeps
    /// it, so the flag the host tests before painting cannot drift from the
    /// painter it speaks for.
    pub open spec fn wf(self) -> bool {
        self.destroyed == !gl_alive(self.painter)
    }

    /// Build the integration over a GL context.  For automatic shader
    /// dialect detection pass `None`.  Fails with the painter's error text
    /// when the GL context cannot support it.
    pub fn new(
        gl: Arc<egui_glow::glow::Context>,
        shader_version: Option<ShaderDialect>,
        dithering: bool,
    ) -> (r: Result<EguiGlow, String>)
        ensures
            r is Ok ==> (r->Ok_0).wf()
                && !(r->Ok_0).is_destroyed()
                && gl_frames((r->Ok_0).painter).len() == 0
                && (r->Ok_0).run_output@.is_empty()
                && (r->Ok_0).run_output@.scale_bits == SCALE_ONE_BITS
                && (r->Ok_0).state.queued_outputs() == Seq::<egui::PlatformOutput>::empty()
                && (r->Ok_0).state.pending_events() == Seq::<egui::Event>::empty(),
    {
        match glow_painter_new(gl, shader_version, dithering) {
            Ok(painter) => Ok(EguiGlow {
                ctx: ctx_default(),
                state: State::new(),
                run_output: EguiRunOutput::default(),
                painter,
                destroyed: false,
            }),
            Err(e) => Err(e),
        }
    }

    /// Feed one host event to the event translator; a window-close is never
    /// consumed, and the translated toolkit event (if any) is queued for the
    /// next run.
    pub fn on_event(&mut self, event: &HostEvent, translated: Option<egui::Event>) -> (r: EventResponse)
        ensures
            final(self).ctx == old(self).ctx,
            final(self).run_output == old(self).run_output,
            final(self).painter == old(self).painter,
            final(self).destroyed == old(self).destroyed,
            final(self).state.queued_outputs() == old(self).state.queued_outputs(),
            final(self).state.pending_events() == match translated {
                Some(e) => old(self).state.pending_events().push(e),
                None => old(self).state.pending_events(),
            },
            r.repaint == requests_repaint(*event),
            *event is WindowClose ==> !r.consumed,
    {
        self.state.on_event(&self.ctx, event, translated)
    }

    /// Run the UI closure for one frame; shapes and scale factor replace the
    /// pending ones, the texture delta is merged, the pending input is
    /// drained.  Call [`Self::paint`] later to paint.
    pub fn run<F: FnMut(&egui::Context)>(&mut self, run_ui: F)
        ensures
            ctx_ran(final(self).ctx),
            final(self).painter == old(self).painter,
            final(self).destroyed == old(self).destroyed,
            exists|r: FrameView| final(self).run_output@ == absorb_spec(old(self).run_output@, r),
            final(self).state.queued_outputs().len() == old(self).state.queued_outputs().len() + 1,
            final(self).state.pending_events() == Seq::<egui::Event>::empty(),
    {
        self.run_output.update(&mut self.ctx, &mut self.state, run_ui);
    }

    /// Paint the results of the runs since the last paint onto a screen of
    /// `width` by `height` physical pixels: the pending output is drained
    /// and exactly the drained shapes (tessellated at the pending scale
    /// factor) and the drained delta go to the GL painter — the painter's
    /// handed-frames record grows by exactly one frame carrying the old
    /// pending delta, the old scale factor, and this screen size.  Right
    /// after a paint the pending output is empty, so a second paint hands
    /// the GL painter an empty delta and no primitives: nothing is
    /// uploaded, drawn, or freed.
    pub fn paint(&mut self, width: u32, height: u32)
        requires
            old(self).wf(),
            !old(self).is_destroyed(),
            old(self).run_output@.shapes.len() > 0 ==> ctx_ran(old(self).ctx),
        ensures
            final(self).ctx == old(self).ctx,
            final(self).wf(),
            !final(self).is_destroyed(),
            final(self).run_output@.is_empty(),
            final(self).run_output@.scale_bits == old(self).run_output@.scale_bits,
            final(self).state.queued_outputs() == old(self).state.queued_outputs(),
            final(self).state.pending_events() == old(self).state.pending_events(),
            exists|infos: Seq<PrimInfo>|
                gl_frames(final(self).painter) == gl_frames(old(self).painter).push((
                    old(self).run_output@.set,
                    old(self).run_output@.free,
                    infos,
                    old(self).run_output@.scale_bits,
                    width,
                    height,
                ))
                && (old(self).run_output@.shapes.len() == 0 ==> infos.len() == 0),
    {
        let scale_bits: u32 = self.run_output.pixels_per_point_bits;
        let (textures_delta, shapes) = self.run_output.take();
        let no_shapes = shapes.len() == 0;
        let clipped_primitives: Vec<egui::ClippedPrimitive> = if no_shapes {
            Vec::new()
        } else {
            ctx_tessellate(&self.ctx, shapes, scale_bits)
        };
        glow_paint(&mut self.painter, width, height, scale_bits, &clipped_primitives, &textures_delta);
        proof {
            let infos = clipped_primitives@.map_values(|cp: egui::ClippedPrimitive| prim_info_of(cp));
            assert(gl_frames(self.painter) == gl_frames(old(self).painter).push((
                old(self).run_output@.set,
                old(self).run_output@.free,
                infos,
                old(self).run_output@.scale_bits,
                width,
                height,
            )));
            assert(old(self).run_output@.shapes.len() == 0 ==> infos.len() == 0);
        }
    }

    /// Release the painter's GL resources.  Terminal: afterwards only
    /// another `destroy` (a no-op) or dropping the value is allowed.
    pub fn destroy(&mut self)
        ensures
            final(self).ctx == old(self).ctx,
            final(self).wf(),
            final(self).is_destroyed(),
            final(self).run_output == old(self).run_output,
            final(self).state.queued_outputs() == old(self).state.queued_outputs(),
    {
        glow_destroy(&mut self.painter);
        self.destroyed = true;
    }
}

} // verus!
