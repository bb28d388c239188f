//! The results of running one frame of the GUI toolkit, merged across runs
//! until a paint drains them.
//!
//! [`EguiRunOutput`] collects the renderable shapes, the texture delta, and
//! the pixels-per-point scale factor from the toolkit's runs.  Repeated runs
//! without an intervening paint *replace* the shapes and the scale factor but
//! *merge* the texture deltas; a paint takes the shapes and the delta and
//! leaves the scale factor standing.  [`lemma_absorb_all`] states that law
//! once and for all for any sequence of runs.

use vstd::prelude::*;

use crate::egui_api::{ctx_ran, ctx_run, delta_append, delta_default, delta_free_of, delta_set_of, delta_take};
use crate::state::State;
use crate::texture::{TextureId, TextureImageView};

verus! {

/// The bit pattern of a pixels-per-point factor of one, the scale a fresh
/// output starts with.
pub const SCALE_ONE_BITS: u32 = 0x3F80_0000;

/// Mathematical value of an [`EguiRunOutput`]: the shapes, the scale factor
/// bit pattern, and the two halves of the texture delta.
#[verifier::ext_equal]
pub struct FrameView {
    pub shapes: Seq<egui::epaint::ClippedShape>,
    pub scale_bits: u32,
    pub set: Seq<(TextureId, TextureImageView)>,
    pub free: Seq<TextureId>,
}

impl FrameView {
    /// Nothing to paint and nothing to reconcile.
    pub open spec fn is_empty(self) -> bool {
        self.shapes.len() == 0 && self.set.len() == 0 && self.free.len() == 0
    }
}

/// What one run leaves behind: it replaces the shapes and the scale factor
/// and appends its texture delta to the pending one.
pub open spec fn absorb_spec(v: FrameView, r: FrameView) -> FrameView {
    FrameView { shapes: r.shapes, scale_bits: r.scale_bits, set: v.set + r.set, free: v.free + r.free }
}

/// The results of running one frame of the GUI toolkit.
///
/// Created once per backend and reused across frames: [`EguiRunOutput::update`]
/// runs the toolkit and absorbs its output, [`EguiRunOutput::take`] drains
/// the shapes and the delta when it is time to render.
pub struct EguiRunOutput {
    /// The clipped shapes that should be rendered for the current frame,
    /// those of the most recent run.
    pub shapes: Vec<egui::epaint::ClippedShape>,

    /// The logical-to-physical pixel scale factor of the most recent run,
    /// carried as the bit pattern of its IEEE-754 single-precision value.
    pub pixels_per_point_bits: u32,

    /// The pending texture delta: the uploads and frees of every run since
    /// the last paint, in order.
    pub textures_delta: egui::TexturesDelta,
}

impl View for EguiRunOutput {
    type V = FrameView;

    open spec fn view(&self) -> FrameView {
        FrameView {
            shapes: self.shapes@,
            scale_bits: self.pixels_per_point_bits,
            set: delta_set_of(self.textures_delta),
            free: delta_free_of(self.textures_delta),
        }
    }
}

impl Default for EguiRunOutput {
    /// An empty output: no shapes, no texture delta, scale factor one.
    fn default() -> (r: Self)
        ensures
            r@.is_empty(),
            r@.scale_bits == SCALE_ONE_BITS,
    {
        EguiRunOutput {
            shapes: Vec::new(),
            pixels_per_point_bits: SCALE_ONE_BITS,
            textures_delta: delta_default(),
        }
    }
}

impl EguiRunOutput {
    /// Absorb one run's results: replace the shapes and the scale factor,
    /// merge the texture delta.  Across any number of absorbs,
    /// [`lemma_absorb_all`] gives the aggregate.
    pub fn absorb(&mut self, shapes: Vec<egui::epaint::ClippedShape>, scale_bits: u32, delta: egui::TexturesDelta)
        ensures
            final(self)@ == absorb_spec(
                old(self)@,
                FrameView {
                    shapes: shapes@,
                    scale_bits,
                    set: delta_set_of(delta),
                    free: delta_free_of(delta),
                },
            ),
    {
        self.shapes = shapes;
        self.pixels_per_point_bits = scale_bits;
        delta_append(&mut self.textures_delta, delta);
        proof {
            assert(self@ =~= absorb_spec(
                old(self)@,
                FrameView { shapes: shapes@, scale_bits, set: delta_set_of(delta), free: delta_free_of(delta) },
            ));
        }
    }

    /// Run the toolkit for one frame and absorb the results: take the
    /// pending input from `state`, run the UI closure, hand the platform
    /// output back to `state`, and store shapes, scale factor, and texture
    /// delta as [`absorb_spec`] says — whatever the run returned, the shapes
    /// and scale replace the stored ones and the delta is merged, never
    /// dropped or replaced.  Each update is one [`absorb_spec`] step, so for
    /// any number of updates without a take, [`lemma_absorb_all`] gives the
    /// whole: the last run's shapes and scale, every run's delta in order.
    /// Afterwards the context has completed a run, which is what
    /// tessellating the stored shapes requires.
    pub fn update<F: FnMut(&egui::Context)>(&mut self, ctx: &mut egui::Context, state: &mut State, run_ui: F)
        ensures
            ctx_ran(*final(ctx)),
            exists|r: FrameView| final(self)@ == absorb_spec(old(self)@, r),
            final(state).queued_outputs().len() == old(state).queued_outputs().len() + 1,
            final(state).pending_events() == Seq::<egui::Event>::empty(),
    {
        let raw_input = state.take_egui_input();
        let (shapes, scale_bits, delta, platform_output) = ctx_run(ctx, raw_input, run_ui);
        state.handle_platform_output(platform_output);
        let ghost run_view = FrameView {
            shapes: shapes@,
            scale_bits,
            set: delta_set_of(delta),
            free: delta_free_of(delta),
        };
        self.absorb(shapes, scale_bits, delta);
        proof {
            assert(self@ == absorb_spec(old(self)@, run_view));
        }
    }

    /// Take the pending texture delta and shapes for painting, leaving both
    /// empty; the scale factor is read separately and stays, so a paint
    /// without an interleaved run reuses the most recent one.
    pub fn take(&mut self) -> (r: (egui::TexturesDelta, Vec<egui::epaint::ClippedShape>))
        ensures
            delta_set_of(r.0) == old(self)@.set,
            delta_free_of(r.0) == old(self)@.free,
            r.1@ == old(self)@.shapes,
            final(self)@.is_empty(),
            final(self)@.scale_bits == old(self)@.scale_bits,
    {
        let textures_delta = delta_take(&mut self.textures_delta);
        let mut shapes: Vec<egui::epaint::ClippedShape> = Vec::new();
        core::mem::swap(&mut shapes, &mut self.shapes);
        (textures_delta, shapes)
    }
}

/// The state after a whole sequence of runs, each absorbed in turn.
pub open spec fn absorb_all(v: FrameView, runs: Seq<FrameView>) -> FrameView
    decreases runs.len(),
{
    if runs.len() == 0 {
        v
    } else {
        absorb_all(absorb_spec(v, runs[0]), runs.drop_first())
    }
}

/// The concatenation of the runs' upload lists, in run order.
pub open spec fn concat_sets(runs: Seq<FrameView>) -> Seq<(TextureId, TextureImageView)>
    decreases runs.len(),
{
    if runs.len() == 0 {
        Seq::empty()
    } else {
        runs[0].set + concat_sets(runs.drop_first())
    }
}

/// The concatenation of the runs' free lists, in run order.
pub open spec fn concat_frees(runs: Seq<FrameView>) -> Seq<TextureId>
    decreases runs.len(),
{
    if runs.len() == 0 {
        Seq::empty()
    } else {
        runs[0].free + concat_frees(runs.drop_first())
    }
}

/// The replace-and-merge law for any sequence of runs without an
/// intervening paint: afterwards the shapes and the scale factor are
/// exactly those of the last run, while the pending texture delta is what
/// was already pending followed by every run's uploads and frees in order —
/// so when the uploads are applied in order at paint time, a later upload
/// of an identifier overrides an earlier one.
pub proof fn lemma_absorb_all(v: FrameView, runs: Seq<FrameView>)
    requires
        runs.len() > 0,
    ensures
        absorb_all(v, runs).shapes == runs.last().shapes,
        absorb_all(v, runs).scale_bits == runs.last().scale_bits,
        absorb_all(v, runs).set == v.set + concat_sets(runs),
        absorb_all(v, runs).free == v.free + concat_frees(runs),
    decreases runs.len(),
{
    let v1 = absorb_spec(v, runs[0]);
    if runs.len() == 1 {
        assert(runs.drop_first().len() == 0);
        assert(absorb_all(v1, runs.drop_first()) == v1);
        assert(v1.set =~= v.set + concat_sets(runs));
        assert(v1.free =~= v.free + concat_frees(runs));
    } else {
        lemma_absorb_all(v1, runs.drop_first());
        assert(runs.drop_first().last() == runs.last());
        assert(v1.set + concat_sets(runs.drop_first()) =~= v.set + concat_sets(runs));
        assert(v1.free + concat_frees(runs.drop_first()) =~= v.free + concat_frees(runs));
    }
}

} // verus!
