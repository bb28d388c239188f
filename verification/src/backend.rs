//! The verified core that a rendering backend wraps: the toolkit context,
//! the event state, the pending run output, and the texture table, composed
//! into the per-frame protocol — `on_event`, `run`, `paint`, `destroy`.
//!
//! `paint` lowers a frame to [`PaintAction`]s for the embedding application
//! to execute.  Painting twice without a run in between is a no-op: the
//! first paint drains the pending output, and a paint of a drained output
//! emits no action at all.

use vstd::prelude::*;

use crate::egui_api::{
    convert_primitive, ctx_default, ctx_ran, ctx_tessellate, delta_free_entry, delta_free_len,
    delta_free_of, delta_set_entry, delta_set_len, delta_set_of, prim_info_of,
};
use crate::output::{EguiRunOutput, FrameView, SCALE_ONE_BITS, absorb_spec};
use crate::painter::{
    FramePrimitive, PaintAction, Painter, frame_actions, free_all_actions,
};
use crate::state::{EventResponse, HostEvent, State, requests_repaint};
use crate::texture::{TextureDeltas, TextureId, TextureImage, TextureImageView};

verus! {

/// A sequence of plain-value uploads carries the same identifiers, sizes,
/// positions, and bytes as a projected delta.
pub open spec fn projects_to(
    sets: Seq<(TextureId, TextureImage)>,
    view: Seq<(TextureId, TextureImageView)>,
) -> bool {
    &&& sets.len() == view.len()
    &&& forall|i: int| 0 <= i < sets.len() ==> (#[trigger] sets[i].0, sets[i].1@) == view[i]
}

/// A sequence of model primitives carries, one for one and in order, the
/// plain parts of a sequence of tessellated primitives.
pub open spec fn prims_project_to(
    prims: Seq<FramePrimitive>,
    tessellated: Seq<egui::ClippedPrimitive>,
) -> bool {
    &&& prims.len() == tessellated.len()
    &&& forall|i: int| 0 <= i < prims.len() ==> (#[trigger] prims[i]).info() == prim_info_of(tessellated[i])
}

/// The toolkit context, event state, pending run output, and texture table
/// of one backend.
pub struct EguiBackend {
    pub ctx: egui::Context,
    pub state: State,
    pub run_output: EguiRunOutput,
    pub painter: Painter,
}

impl EguiBackend {
    /// The texture table never holds an identifier twice.
    pub open spec fn wf(self) -> bool {
        self.painter.wf()
    }

    /// A fresh backend: new context, empty state, empty output at a scale
    /// factor of one, empty table.
    pub fn new() -> (r: EguiBackend)
        ensures
            r.wf(),
            r.run_output@.is_empty(),
            r.run_output@.scale_bits == SCALE_ONE_BITS,
            r.painter.ids() == Seq::<TextureId>::empty(),
            r.state.queued_outputs() == Seq::<egui::PlatformOutput>::empty(),
            r.state.pending_events() == Seq::<egui::Event>::empty(),
    {
        EguiBackend {
            ctx: ctx_default(),
            state: State::new(),
            run_output: EguiRunOutput::default(),
            painter: Painter::new(),
        }
    }

    /// Feed one host event to the event translator.  Painting state is
    /// untouched; a window-close is never consumed.
    pub fn on_event(&mut self, event: &HostEvent, translated: Option<egui::Event>) -> (r: EventResponse)
        ensures
            final(self).ctx == old(self).ctx,
            final(self).run_output == old(self).run_output,
            final(self).painter == old(self).painter,
            final(self).state.queued_outputs() == old(self).state.queued_outputs(),
            final(self).state.pending_events() == match translated {
                Some(e) => old(self).state.pending_events().push(e),
                None => old(self).state.pending_events(),
            },
            r.repaint == requests_repaint(*event),
            *event is WindowClose ==> !r.consumed,
    {
        self.state.on_event(&self.ctx, event, translated)
    }

    /// Run the UI closure for one frame; the output is absorbed — shapes and
    /// scale factor replaced, texture delta merged.  Call [`Self::paint`]
    /// later to paint.
    pub fn run<F: FnMut(&egui::Context)>(&mut self, run_ui: F)
        ensures
            ctx_ran(final(self).ctx),
            final(self).painter == old(self).painter,
            exists|r: FrameView| final(self).run_output@ == absorb_spec(old(self).run_output@, r),
            final(self).state.queued_outputs().len() == old(self).state.queued_outputs().len() + 1,
            final(self).state.pending_events() == Seq::<egui::Event>::empty(),
    {
        self.run_output.update(&mut self.ctx, &mut self.state, run_ui);
    }

    /// Lower a texture delta to plain values, entry by entry, keeping order.
    fn convert_delta(delta: &egui::TexturesDelta) -> (r: TextureDeltas)
        ensures
            projects_to(r.set@, delta_set_of(*delta)),
            r.free@ == delta_free_of(*delta),
    {
        let mut set: Vec<(TextureId, TextureImage)> = Vec::new();
        let set_len: usize = delta_set_len(delta);
        let mut i: usize = 0;
        while i < set_len
            invariant
                set_len == delta_set_of(*delta).len(),
                i <= set_len,
                set@.len() == i,
                forall|j: int| 0 <= j < i ==> (#[trigger] set@[j].0, set@[j].1@) == delta_set_of(*delta)[j],
            decreases set_len - i,
        {
            let entry = delta_set_entry(delta, i);
            set.push(entry);
            i = i + 1;
        }

        let mut free: Vec<TextureId> = Vec::new();
        let free_len: usize = delta_free_len(delta);
        let mut k: usize = 0;
        while k < free_len
            invariant
                free_len == delta_free_of(*delta).len(),
                k <= free_len,
                free@ == delta_free_of(*delta).take(k as int),
            decreases free_len - k,
        {
            let id = delta_free_entry(delta, k);
            free.push(id);
            proof {
                assert(free@ =~= delta_free_of(*delta).take(k + 1));
            }
            k = k + 1;
        }
        proof {
            assert(free@ =~= delta_free_of(*delta));
        }
        TextureDeltas { set, free }
    }

    /// Lower tessellated primitives to the model, in order.
    fn convert_primitives(prims: &Vec<egui::ClippedPrimitive>) -> (r: Vec<FramePrimitive>)
        ensures
            prims_project_to(r@, prims@),
    {
        let mut out: Vec<FramePrimitive> = Vec::new();
        let mut i: usize = 0;
        while i < prims.len()
            invariant
                i <= prims@.len(),
                out@.len() == i,
                forall|j: int| 0 <= j < i ==> (#[trigger] out@[j]).info() == prim_info_of(prims@[j]),
            decreases prims@.len() - i,
        {
            let p = convert_primitive(&prims[i]);
            out.push(p);
            i = i + 1;
        }
        out
    }

    /// Paint the results of the runs since the last paint: tessellate the
    /// pending shapes at the pending scale factor, and lower the frame to
    /// actions — uploads first, then draws, then frees.  The pending output
    /// is drained (the scale factor stays), so painting again without a run
    /// emits no action: no texture is uploaded or freed and nothing is
    /// drawn.  Pending shapes can only come from a completed run of this
    /// context (tessellating them needs its fonts), which [`Self::run`]
    /// establishes.
    pub fn paint(&mut self) -> (acts: Vec<PaintAction>)
        requires
            old(self).wf(),
            old(self).run_output@.shapes.len() > 0 ==> ctx_ran(old(self).ctx),
        ensures
            final(self).ctx == old(self).ctx,
            final(self).wf(),
            final(self).run_output@.is_empty(),
            final(self).run_output@.scale_bits == old(self).run_output@.scale_bits,
            final(self).state.queued_outputs() == old(self).state.queued_outputs(),
            final(self).state.pending_events() == old(self).state.pending_events(),
            old(self).run_output@.is_empty() ==> acts@.len() == 0
                && final(self).painter.ids() == old(self).painter.ids(),
            exists|sets: Seq<(TextureId, TextureImage)>, tessellated: Seq<egui::ClippedPrimitive>, prims: Seq<FramePrimitive>|
                projects_to(sets, old(self).run_output@.set)
                && prims_project_to(prims, tessellated)
                && (old(self).run_output@.shapes.len() == 0 ==> prims.len() == 0)
                && acts@ == frame_actions(
                    old(self).painter.ids(),
                    old(self).run_output@.scale_bits,
                    sets,
                    old(self).run_output@.free,
                    prims,
                ),
    {
        let scale_bits: u32 = self.run_output.pixels_per_point_bits;
        let (textures_delta, shapes) = self.run_output.take();
        let no_shapes = shapes.len() == 0;
        let clipped_primitives: Vec<egui::ClippedPrimitive> = if no_shapes {
            Vec::new()
        } else {
            ctx_tessellate(&self.ctx, shapes, scale_bits)
        };
        let prims = Self::convert_primitives(&clipped_primitives);
        let deltas = Self::convert_delta(&textures_delta);
        let ghost sets_view = deltas.set@;
        let ghost prims_view = prims@;
        let ghost tessellated_view = clipped_primitives@;
        let ghost ids0 = self.painter.ids();
        let acts = self.painter.paint_and_update_textures(scale_bits, deltas, prims);
        proof {
            assert(projects_to(sets_view, old(self).run_output@.set));
            assert(prims_project_to(prims_view, tessellated_view));
            assert(acts@ == frame_actions(
                old(self).painter.ids(),
                old(self).run_output@.scale_bits,
                sets_view,
                old(self).run_output@.free,
                prims_view,
            ));
            if old(self).run_output@.is_empty() {
                assert(sets_view.len() == 0);
                assert(prims_view.len() == 0);
                assert(old(self).run_output@.free.len() == 0);
                assert(acts@ =~= Seq::<PaintAction>::empty());
                assert(self.painter.ids() == old(self).painter.ids());
            }
        }
        acts
    }

    /// Release every native texture: one free action per live identifier,
    /// and the table is left empty, so a second destroy emits nothing.
    pub fn destroy(&mut self) -> (acts: Vec<PaintAction>)
        requires
            old(self).wf(),
        ensures
            final(self).ctx == old(self).ctx,
            final(self).wf(),
            acts@ == free_all_actions(old(self).painter.ids()),
            final(self).painter.ids() == Seq::<TextureId>::empty(),
            old(self).painter.ids().len() == 0 ==> acts@.len() == 0,
            final(self).run_output == old(self).run_output,
            final(self).state.queued_outputs() == old(self).state.queued_outputs(),
    {
        self.painter.destroy()
    }
}

} // verus!
