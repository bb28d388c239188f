//! The backend painter's verified core: the texture table and the paint
//! actions a frame asks a rendering backend to perform.
//!
//! The painter does not touch a native rendering library itself.  It owns the
//! table of live texture identifiers, decides for every texture update
//! whether a native texture must be allocated or only updated, frees only
//! what is live, and lowers a frame to an ordered list of [`PaintAction`]s:
//! first the texture uploads, then the draws, then the frees.  The embedding
//! application executes those actions against its native backend; the
//! contracts here pin down exactly which actions come out, in which order.

use vstd::prelude::*;

use crate::texture::{TextureDeltas, TextureId, TextureImage};

verus! {

/// A clip rectangle in logical points, each coordinate carried as the bit
/// pattern of its IEEE-754 single-precision value.  The verified code never
/// interprets the coordinates; it passes them through to the draw action,
/// where the executing backend scales them by the frame's pixels-per-point
/// factor.
#[derive(Clone, Copy, PartialEq, Eq, Structural, Debug)]
pub struct ClipRect {
    pub min_x: u32,
    pub min_y: u32,
    pub max_x: u32,
    pub max_y: u32,
}

/// A tessellated mesh together with the texture it samples.
pub struct MeshPrimitive {
    pub texture_id: TextureId,
    pub mesh: egui::epaint::Mesh,
}

/// What one clipped primitive paints: triangle-mesh geometry, or an opaque
/// paint callback, which no backend here supports and which painting skips.
pub enum Primitive {
    Mesh(MeshPrimitive),
    Callback,
}

/// One tessellated primitive with its clip rectangle.
pub struct FramePrimitive {
    pub clip_rect: ClipRect,
    pub primitive: Primitive,
}

/// The plain part of a primitive: everything but the opaque mesh value.
#[derive(Clone, Copy, PartialEq, Eq, Structural, Debug)]
pub struct PrimInfo {
    pub clip_rect: ClipRect,
    pub kind: PrimKind,
}

/// The plain part of what a primitive paints.
#[derive(Clone, Copy, PartialEq, Eq, Structural, Debug)]
pub enum PrimKind {
    Mesh { texture_id: TextureId },
    Callback,
}

impl FramePrimitive {
    /// The plain part of this primitive.
    pub open spec fn info(self) -> PrimInfo {
        PrimInfo {
            clip_rect: self.clip_rect,
            kind: match self.primitive {
                Primitive::Mesh(m) => PrimKind::Mesh { texture_id: m.texture_id },
                Primitive::Callback => PrimKind::Callback,
            },
        }
    }
}

/// One operation for the executing backend, in the order emitted:
/// allocate a native texture, upload pixels into one, draw one mesh
/// (clipped, scaled by the carried factor, with `texture` resolved against
/// the table — `None` stands for the null texture of an untextured or
/// unknown-texture mesh), or release a native texture.
pub enum PaintAction {
    CreateTexture { id: TextureId, width: usize, height: usize },
    UploadTexture { id: TextureId, image: TextureImage },
    Draw { scale_bits: u32, clip_rect: ClipRect, texture: Option<TextureId>, mesh: egui::epaint::Mesh },
    FreeTexture { id: TextureId },
}

/// The table after one texture update: unchanged if the identifier is
/// already live, extended by it otherwise.
pub open spec fn ids_after_set(ids: Seq<TextureId>, id: TextureId) -> Seq<TextureId> {
    if ids.contains(id) {
        ids
    } else {
        ids.push(id)
    }
}

/// The actions one texture update emits: an allocation sized to the image
/// for a new identifier, then in either case the upload itself.
pub open spec fn set_actions(ids: Seq<TextureId>, id: TextureId, image: TextureImage) -> Seq<PaintAction> {
    if ids.contains(id) {
        seq![PaintAction::UploadTexture { id, image }]
    } else {
        seq![
            PaintAction::CreateTexture { id, width: image.width, height: image.height },
            PaintAction::UploadTexture { id, image },
        ]
    }
}

/// The table after a sequence of texture updates, applied in order.
pub open spec fn ids_after_sets(ids: Seq<TextureId>, sets: Seq<(TextureId, TextureImage)>) -> Seq<TextureId>
    decreases sets.len(),
{
    if sets.len() == 0 {
        ids
    } else {
        ids_after_sets(ids_after_set(ids, sets[0].0), sets.drop_first())
    }
}

/// The actions a sequence of texture updates emits, in order.
pub open spec fn sets_actions(ids: Seq<TextureId>, sets: Seq<(TextureId, TextureImage)>) -> Seq<PaintAction>
    decreases sets.len(),
{
    if sets.len() == 0 {
        Seq::empty()
    } else {
        set_actions(ids, sets[0].0, sets[0].1)
            + sets_actions(ids_after_set(ids, sets[0].0), sets.drop_first())
    }
}

/// The draw actions for a primitive list: one draw per mesh primitive, in
/// input order, with the texture resolved against the table; callbacks are
/// skipped.
pub open spec fn draw_actions(table: Set<TextureId>, scale_bits: u32, prims: Seq<FramePrimitive>) -> Seq<PaintAction>
    decreases prims.len(),
{
    if prims.len() == 0 {
        Seq::empty()
    } else {
        let rest = draw_actions(table, scale_bits, prims.drop_first());
        match prims[0].primitive {
            Primitive::Mesh(m) => seq![
                PaintAction::Draw {
                    scale_bits,
                    clip_rect: prims[0].clip_rect,
                    texture: if table.contains(m.texture_id) { Some(m.texture_id) } else { None },
                    mesh: m.mesh,
                },
            ] + rest,
            Primitive::Callback => rest,
        }
    }
}

/// The actions a sequence of frees emits: one free per identifier that is
/// live when its turn comes, none for the rest.
pub open spec fn free_actions(table: Set<TextureId>, frees: Seq<TextureId>) -> Seq<PaintAction>
    decreases frees.len(),
{
    if frees.len() == 0 {
        Seq::empty()
    } else {
        let rest = free_actions(table.remove(frees[0]), frees.drop_first());
        if table.contains(frees[0]) {
            seq![PaintAction::FreeTexture { id: frees[0] }] + rest
        } else {
            rest
        }
    }
}

/// The table after a sequence of frees.
pub open spec fn table_after_frees(table: Set<TextureId>, frees: Seq<TextureId>) -> Set<TextureId>
    decreases frees.len(),
{
    if frees.len() == 0 {
        table
    } else {
        table_after_frees(table.remove(frees[0]), frees.drop_first())
    }
}

/// One free action per live identifier, in table order.
pub open spec fn free_all_actions(ids: Seq<TextureId>) -> Seq<PaintAction> {
    ids.map_values(|id: TextureId| PaintAction::FreeTexture { id })
}

/// Everything one frame asks of the backend, in order: the texture uploads,
/// then the draws (against the table as the uploads left it), then the frees.
pub open spec fn frame_actions(
    ids: Seq<TextureId>,
    scale_bits: u32,
    sets: Seq<(TextureId, TextureImage)>,
    frees: Seq<TextureId>,
    prims: Seq<FramePrimitive>,
) -> Seq<PaintAction> {
    sets_actions(ids, sets)
        + draw_actions(ids_after_sets(ids, sets).to_set(), scale_bits, prims)
        + free_actions(ids_after_sets(ids, sets).to_set(), frees)
}

/// The texture table of one rendering backend: which texture identifiers
/// currently have a native texture behind them.
///
/// The table must be drained by [`Painter::destroy`] before the backend is
/// discarded; the executing side releases a native handle exactly when a
/// `FreeTexture` action tells it to, and the contracts here emit one such
/// action per live identifier, exactly once.
pub struct Painter {
    textures: Vec<TextureId>,
}

impl Painter {
    /// The live identifiers, in the order they became live.
    pub closed spec fn ids(self) -> Seq<TextureId> {
        self.textures@
    }

    /// The live identifiers as a set.
    pub open spec fn table(self) -> Set<TextureId> {
        self.ids().to_set()
    }

    /// No identifier is live twice: a native handle is never doubled.
    pub open spec fn wf(self) -> bool {
        self.ids().no_duplicates()
    }

    /// A fresh painter owns no textures.
    pub fn new() -> (r: Painter)
        ensures
            r.ids() == Seq::<TextureId>::empty(),
            r.wf(),
    {
        Painter { textures: Vec::new() }
    }

    /// Whether `id` is live.
    fn contains(&self, id: TextureId) -> (b: bool)
        ensures
            b == self.ids().contains(id),
    {
        let mut i: usize = 0;
        while i < self.textures.len()
            invariant
                i <= self.textures.len(),
                forall|j: int| 0 <= j < i ==> self.textures@[j] != id,
            decreases self.textures.len() - i,
        {
            if self.textures[i] == id {
                return true;
            }
            i = i + 1;
        }
        false
    }

    /// Apply one texture update: allocate first if the identifier is new,
    /// then upload the image.
    pub fn set_texture(&mut self, id: TextureId, image: TextureImage) -> (acts: Vec<PaintAction>)
        requires
            old(self).wf(),
        ensures
            final(self).wf(),
            final(self).ids() == ids_after_set(old(self).ids(), id),
            acts@ == set_actions(old(self).ids(), id, image),
    {
        let mut acts: Vec<PaintAction> = Vec::new();
        if self.contains(id) {
            acts.push(PaintAction::UploadTexture { id, image });
            assert(acts@ =~= set_actions(old(self).ids(), id, image));
        } else {
            acts.push(PaintAction::CreateTexture { id, width: image.width, height: image.height });
            acts.push(PaintAction::UploadTexture { id, image });
            self.textures.push(id);
            assert(acts@ =~= set_actions(old(self).ids(), id, image));
        }
        acts
    }

    /// Free one texture.  An identifier that is not live is a no-op: no
    /// action is emitted and the table is unchanged, so a handle is never
    /// released twice and freeing a never-set identifier cannot fail.
    #[verifier::loop_isolation(false)]
    pub fn free_texture(&mut self, id: TextureId) -> (act: Option<PaintAction>)
        requires
            old(self).wf(),
        ensures
            final(self).wf(),
            final(self).table() == old(self).table().remove(id),
            old(self).table().contains(id) ==> act == Some(PaintAction::FreeTexture { id })
                && final(self).ids().len() == old(self).ids().len() - 1,
            !old(self).table().contains(id) ==> act is None && final(self).ids() == old(self).ids(),
    {
        let ghost old_ids = self.textures@;
        let mut i: usize = 0;
        while i < self.textures.len()
            invariant
                self.textures@ == old_ids,
                old_ids.no_duplicates(),
                i <= self.textures.len(),
                forall|j: int| 0 <= j < i ==> self.textures@[j] != id,
            decreases self.textures.len() - i,
        {
            if self.textures[i] == id {
                self.textures.remove(i);
                proof {
                    lemma_remove_found(old_ids, i as int, id);
                }
                return Some(PaintAction::FreeTexture { id });
            }
            i = i + 1;
        }
        proof {
            assert(!old_ids.contains(id));
            assert(!old_ids.to_set().contains(id));
            assert(self.table() =~= old_ids.to_set().remove(id));
        }
        None
    }

    /// Emit the draw actions for a primitive list, in order: one draw per
    /// mesh, none for a callback.  The table is only read.
    pub fn paint_primitives(&self, scale_bits: u32, prims: Vec<FramePrimitive>) -> (acts: Vec<PaintAction>)
        ensures
            acts@ == draw_actions(self.table(), scale_bits, prims@),
    {
        let ghost all = prims@;
        let ghost table = self.table();
        let mut rest = prims;
        let mut acts: Vec<PaintAction> = Vec::new();
        while rest.len() > 0
            invariant
                table == self.table(),
                acts@ + draw_actions(table, scale_bits, rest@) == draw_actions(table, scale_bits, all),
            decreases rest@.len(),
        {
            let ghost rest0 = rest@;
            let ghost acts0 = acts@;
            let p = rest.remove(0);
            assert(rest@ =~= rest0.drop_first());
            match p.primitive {
                Primitive::Mesh(m) => {
                    let textured = self.contains(m.texture_id);
                    let texture = if textured { Some(m.texture_id) } else { None };
                    acts.push(PaintAction::Draw {
                        scale_bits,
                        clip_rect: p.clip_rect,
                        texture,
                        mesh: m.mesh,
                    });
                    proof {
                        assert(acts@ =~= acts0.push(draw_actions(table, scale_bits, rest0)[0]));
                        assert(acts@ + draw_actions(table, scale_bits, rest@)
                            =~= acts0 + draw_actions(table, scale_bits, rest0));
                    }
                }
                Primitive::Callback => {
                    assert(draw_actions(table, scale_bits, rest@)
                        == draw_actions(table, scale_bits, rest0));
                }
            }
        }
        assert(acts@ =~= acts@ + draw_actions(table, scale_bits, rest@));
        acts
    }

    /// A whole frame: apply every texture update, then draw every primitive,
    /// then free what the delta asks to free.  The ordering invariant — every
    /// upload precedes every draw, every free follows them — is the shape of
    /// [`frame_actions`] itself.  With nothing to upload, draw, or free, no
    /// action comes out.
    pub fn paint_and_update_textures(
        &mut self,
        scale_bits: u32,
        deltas: TextureDeltas,
        prims: Vec<FramePrimitive>,
    ) -> (acts: Vec<PaintAction>)
        requires
            old(self).wf(),
        ensures
            final(self).wf(),
            acts@ == frame_actions(old(self).ids(), scale_bits, deltas.set@, deltas.free@, prims@),
            final(self).table() == table_after_frees(
                ids_after_sets(old(self).ids(), deltas.set@).to_set(),
                deltas.free@,
            ),
            deltas.set@.len() == 0 && deltas.free@.len() == 0 ==> final(self).ids() == old(self).ids(),
    {
        let TextureDeltas { set: sets, free: frees } = deltas;
        let ghost all_sets = sets@;
        let ghost ids0 = self.ids();

        let mut acts: Vec<PaintAction> = Vec::new();
        let mut rest = sets;
        while rest.len() > 0
            invariant
                self.wf(),
                acts@ + sets_actions(self.ids(), rest@) == sets_actions(ids0, all_sets),
                ids_after_sets(self.ids(), rest@) == ids_after_sets(ids0, all_sets),
                all_sets.len() == 0 ==> self.ids() == ids0,
            decreases rest@.len(),
        {
            let ghost rest0 = rest@;
            let ghost acts0 = acts@;
            let ghost ids_before = self.ids();
            let (id, image) = rest.remove(0);
            assert(rest@ =~= rest0.drop_first());
            let mut step = self.set_texture(id, image);
            acts.append(&mut step);
            proof {
                assert((id, image) == rest0[0]);
                assert(acts@ =~= acts0 + set_actions(ids_before, id, image));
                assert(acts@ + sets_actions(self.ids(), rest@)
                    =~= acts0 + sets_actions(ids_before, rest0));
            }
        }
        assert(acts@ =~= acts@ + sets_actions(self.ids(), rest@));
        assert(self.ids() == ids_after_sets(ids0, all_sets));

        let mut draws = self.paint_primitives(scale_bits, prims);
        acts.append(&mut draws);

        let ghost ids_mid = self.ids();
        let ghost all_frees = frees@;
        let ghost acts_mid = acts@;
        assert(all_frees.skip(0) =~= all_frees);
        let mut i: usize = 0;
        while i < frees.len()
            invariant
                self.wf(),
                i <= frees.len(),
                frees@ == all_frees,
                acts@ + free_actions(self.table(), all_frees.skip(i as int))
                    == acts_mid + free_actions(ids_mid.to_set(), all_frees),
                table_after_frees(self.table(), all_frees.skip(i as int))
                    == table_after_frees(ids_mid.to_set(), all_frees),
                all_frees.len() == 0 ==> self.ids() == ids_mid,
            decreases frees.len() - i,
        {
            let ghost table_before = self.table();
            let ghost acts0 = acts@;
            let ghost suffix = all_frees.skip(i as int);
            let id = frees[i];
            let act = self.free_texture(id);
            match act {
                Some(a) => { acts.push(a); }
                None => {}
            }
            proof {
                assert(suffix[0] == id);
                assert(suffix.drop_first() =~= all_frees.skip(i + 1));
                if table_before.contains(id) {
                    assert(acts@ =~= acts0.push(PaintAction::FreeTexture { id }));
                    assert(acts@ + free_actions(self.table(), all_frees.skip(i + 1))
                        =~= acts0 + free_actions(table_before, suffix));
                } else {
                    assert(self.table() =~= table_before.remove(id));
                    assert(acts@ + free_actions(self.table(), all_frees.skip(i + 1))
                        =~= acts0 + free_actions(table_before, suffix));
                }
            }
            i = i + 1;
        }
        proof {
            assert(all_frees.skip(all_frees.len() as int) =~= Seq::<TextureId>::empty());
            assert(acts@ =~= acts@ + free_actions(self.table(), Seq::empty()));
            assert(acts@ =~= frame_actions(ids0, scale_bits, all_sets, all_frees, prims@));
        }
        acts
    }

    /// Release everything: one free action per live identifier, in table
    /// order, and the table is left empty — so a second call emits nothing
    /// (the table is already empty) and no handle is ever freed twice.
    pub fn destroy(&mut self) -> (acts: Vec<PaintAction>)
        requires
            old(self).wf(),
        ensures
            final(self).wf(),
            acts@ == free_all_actions(old(self).ids()),
            final(self).ids() == Seq::<TextureId>::empty(),
            old(self).ids().len() == 0 ==> acts@.len() == 0,
    {
        let ghost all = self.textures@;
        let mut acts: Vec<PaintAction> = Vec::new();
        let mut i: usize = 0;
        while i < self.textures.len()
            invariant
                self.textures@ == all,
                i <= self.textures.len(),
                acts@ == free_all_actions(all.take(i as int)),
            decreases self.textures.len() - i,
        {
            let id = self.textures[i];
            acts.push(PaintAction::FreeTexture { id });
            proof {
                assert(acts@ =~= free_all_actions(all.take(i + 1)));
            }
            i = i + 1;
        }
        self.textures.clear();
        proof {
            assert(all.take(all.len() as int) =~= all);
            assert(final(self).ids() =~= Seq::<TextureId>::empty());
        }
        acts
    }
}

/// The identifiers a sequence of texture updates uploads.
pub open spec fn set_ids(sets: Seq<(TextureId, TextureImage)>) -> Set<TextureId> {
    Set::new(|id: TextureId| exists|i: int| 0 <= i < sets.len() && sets[i].0 == id)
}

/// Applying a sequence of texture updates makes the table the union of the
/// old table and the updated identifiers — an identifier set twice is in
/// the table once, its uploads applied in order, the later over the
/// earlier.
pub proof fn lemma_table_after_sets(ids: Seq<TextureId>, sets: Seq<(TextureId, TextureImage)>)
    ensures
        ids_after_sets(ids, sets).to_set() == ids.to_set().union(set_ids(sets)),
    decreases sets.len(),
{
    if sets.len() == 0 {
        assert(set_ids(sets) =~= Set::<TextureId>::empty());
        assert(ids_after_sets(ids, sets).to_set() =~= ids.to_set().union(set_ids(sets)));
    } else {
        let head = sets[0].0;
        let ids1 = ids_after_set(ids, head);
        lemma_table_after_sets(ids1, sets.drop_first());
        assert forall|x: TextureId| set_ids(sets).contains(x)
            implies set_ids(sets.drop_first()).contains(x) || x == head by {
            let i = choose|i: int| 0 <= i < sets.len() && sets[i].0 == x;
            if i > 0 {
                assert(sets.drop_first()[i - 1].0 == x);
            }
        }
        assert forall|x: TextureId| set_ids(sets.drop_first()).contains(x)
            implies set_ids(sets).contains(x) by {
            let i = choose|i: int| 0 <= i < sets.drop_first().len() && sets.drop_first()[i].0 == x;
            assert(sets[i + 1].0 == x);
        }
        assert(set_ids(sets) =~= set_ids(sets.drop_first()).insert(head));
        assert forall|x: TextureId| ids1.to_set().contains(x)
            implies ids.to_set().insert(head).contains(x) by {
            let i = choose|i: int| 0 <= i < ids1.len() && ids1[i] == x;
            if i < ids.len() {
                assert(ids[i] == x);
            }
        }
        assert(ids1.contains(head)) by {
            if !ids.contains(head) {
                assert(ids1[ids.len() as int] == head);
            }
        }
        assert forall|x: TextureId| ids.contains(x) implies ids1.contains(x) by {
            let i = choose|i: int| 0 <= i < ids.len() && ids[i] == x;
            assert(ids1[i] == x);
        }
        assert(ids1.to_set() =~= ids.to_set().insert(head));
        assert(ids_after_sets(ids, sets).to_set() =~= ids.to_set().union(set_ids(sets)));
    }
}

/// Applying a sequence of frees leaves the table without the freed
/// identifiers and with nothing else changed: the table minus the free
/// set.
pub proof fn lemma_table_after_frees(table: Set<TextureId>, frees: Seq<TextureId>)
    ensures
        table_after_frees(table, frees) == table.difference(frees.to_set()),
    decreases frees.len(),
{
    if frees.len() == 0 {
        assert(frees.to_set() =~= Set::<TextureId>::empty());
        assert(table_after_frees(table, frees) =~= table.difference(frees.to_set()));
    } else {
        let head = frees[0];
        lemma_table_after_frees(table.remove(head), frees.drop_first());
        assert forall|x: TextureId| frees.to_set().contains(x)
            implies frees.drop_first().to_set().contains(x) || x == head by {
            let i = choose|i: int| 0 <= i < frees.len() && frees[i] == x;
            if i > 0 {
                assert(frees.drop_first()[i - 1] == x);
            }
        }
        assert forall|x: TextureId| frees.drop_first().to_set().contains(x)
            implies frees.to_set().contains(x) by {
            let i = choose|i: int| 0 <= i < frees.drop_first().len() && frees.drop_first()[i] == x;
            assert(frees[i + 1] == x);
        }
        assert(frees.to_set() =~= frees.drop_first().to_set().insert(head));
        assert(table.remove(head).difference(frees.drop_first().to_set())
            =~= table.difference(frees.to_set()));
    }
}

/// After a whole frame the table holds exactly the old identifiers and the
/// uploaded ones, minus the freed ones: what
/// [`Painter::paint_and_update_textures`] leaves live.
pub proof fn lemma_frame_table(
    ids: Seq<TextureId>,
    sets: Seq<(TextureId, TextureImage)>,
    frees: Seq<TextureId>,
)
    ensures
        table_after_frees(ids_after_sets(ids, sets).to_set(), frees)
            == ids.to_set().union(set_ids(sets)).difference(frees.to_set()),
{
    lemma_table_after_sets(ids, sets);
    lemma_table_after_frees(ids_after_sets(ids, sets).to_set(), frees);
}

/// Removing the one occurrence of `id` (at index `at`) from a duplicate-free
/// sequence removes exactly `id` from its set of elements.
proof fn lemma_remove_found(ids: Seq<TextureId>, at: int, id: TextureId)
    requires
        ids.no_duplicates(),
        0 <= at < ids.len(),
        ids[at] == id,
    ensures
        ids.remove(at).no_duplicates(),
        ids.remove(at).to_set() == ids.to_set().remove(id),
        ids.remove(at).len() == ids.len() - 1,
{
    let removed = ids.remove(at);
    ids.remove_ensures(at);
    assert forall|x: TextureId| removed.to_set().contains(x) implies ids.to_set().remove(id).contains(x) by {
        let k = choose|k: int| 0 <= k < removed.len() && removed[k] == x;
        if k < at {
            assert(ids[k] == x);
        } else {
            assert(ids[k + 1] == x);
        }
        assert(x != id);
    }
    assert forall|x: TextureId| ids.to_set().remove(id).contains(x) implies removed.to_set().contains(x) by {
        let k = choose|k: int| 0 <= k < ids.len() && ids[k] == x;
        assert(k != at);
        if k < at {
            assert(removed[k] == x);
        } else {
            assert(removed[k - 1] == x);
        }
    }
    assert(removed.to_set() =~= ids.to_set().remove(id));
    assert forall|p: int, q: int| 0 <= p < q < removed.len() implies removed[p] != removed[q] by {
        if q < at {
        } else if p < at {
            assert(removed[p] == ids[p] && removed[q] == ids[q + 1]);
        } else {
            assert(removed[p] == ids[p + 1] && removed[q] == ids[q + 1]);
        }
    }
}

} // verus!
