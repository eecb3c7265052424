//! The presentation pass: a ring of history textures that turns by one
//! slot each frame, and the pipeline that copies the newest one to the
//! surface.

use vstd::prelude::*;
use vstd::arithmetic::div_mod::*;
use crate::binding::{BindingKind, LayoutEntry, TextureViewDimension, vertex_fragment, spec_vertex_fragment};
use crate::mesh::draw::{BindSource, DrawCommand};
use crate::gpu::{
    Extent3d,
    PipelineDescriptor,
    ShaderSource,
    TextureDimension,
    TextureFormat,
    blend_replace,
    spec_blend_replace,
};
use crate::presentation::textures::PresentTexture;
use crate::text::{numbered, spec_decimal};

pub mod depth_texture;
pub mod textures;

verus! {

/// The ring turned by one slot: the last element comes first, every other
/// element moves one slot back.
pub open spec fn rotate_once<T>(ring: Seq<T>) -> Seq<T> {
    if ring.len() == 0 {
        ring
    } else {
        seq![ring.last()] + ring.drop_last()
    }
}

/// The ring turned `turns` times by one slot.
pub open spec fn rotate_by<T>(ring: Seq<T>, turns: nat) -> Seq<T>
    decreases turns,
{
    if turns == 0 {
        ring
    } else {
        rotate_once(rotate_by(ring, (turns - 1) as nat))
    }
}

/// One turn moves the element of slot `slot` to the next slot, and the one
/// of the last slot to slot 0.
pub proof fn lemma_rotate_once_moves<T>(ring: Seq<T>, slot: int)
    requires
        0 <= slot < ring.len(),
    ensures
        rotate_once(ring).len() == ring.len(),
        rotate_once(ring)[(slot + 1) % (ring.len() as int)] == ring[slot],
{
    let n = ring.len() as int;
    if slot + 1 < n {
        lemma_small_mod((slot + 1) as nat, n as nat);
    } else {
        lemma_mod_self_0(n);
    }
}

/// Turning is a cyclic permutation: after `turns` turns the element that
/// stood in slot `slot` stands in slot `(slot + turns) mod N`, where `N` is
/// the length of the ring.
pub proof fn lemma_rotation_is_cyclic<T>(ring: Seq<T>, turns: nat, slot: int)
    requires
        0 <= slot < ring.len(),
    ensures
        rotate_by(ring, turns).len() == ring.len(),
        rotate_by(ring, turns)[(slot + turns) % (ring.len() as int)] == ring[slot],
    decreases turns,
{
    let n = ring.len() as int;
    if turns == 0 {
        lemma_small_mod(slot as nat, n as nat);
    } else {
        let before = rotate_by(ring, (turns - 1) as nat);
        lemma_rotation_is_cyclic(ring, (turns - 1) as nat, slot);
        let at = (slot + turns - 1) % n;
        lemma_mod_bound(slot + turns - 1, n);
        lemma_rotate_once_moves(before, at);
        lemma_add_mod_noop(slot + turns - 1, 1, n);
        if n == 1 {
            lemma_mod_self_0(n);
        } else {
            lemma_small_mod(1, n as nat);
        }
    }
}

/// Turning keeps the textures apart: a ring without a texture in two
/// slots stays one, however often it turns. In such a ring of two
/// textures or more, the target of a frame and the frame that is read are
/// never the same texture.
pub proof fn lemma_rotation_keeps_slots_apart<T>(ring: Seq<T>, turns: nat)
    requires
        ring.no_duplicates(),
    ensures
        rotate_by(ring, turns).len() == ring.len(),
        rotate_by(ring, turns).no_duplicates(),
        ring.len() >= 2 ==> rotate_by(ring, turns)[0] != rotate_by(ring, turns)[1],
    decreases turns,
{
    if turns > 0 {
        let before = rotate_by(ring, (turns - 1) as nat);
        lemma_rotation_keeps_slots_apart(ring, (turns - 1) as nat);
        let after = rotate_once(before);
        if before.len() > 0 {
            assert forall|i: int, j: int|
                0 <= i < after.len() && 0 <= j < after.len() && i != j implies after[i]
                != after[j] by {
                let from_i = if i == 0 {
                    before.len() - 1
                } else {
                    i - 1
                };
                let from_j = if j == 0 {
                    before.len() - 1
                } else {
                    j - 1
                };
                assert(after[i] == before[from_i]);
                assert(after[j] == before[from_j]);
            }
        }
    }
}

/// A full round of turns brings the ring back to where it began.
pub proof fn lemma_full_round_is_identity<T>(ring: Seq<T>)
    ensures
        rotate_by(ring, ring.len()) == ring,
{
    let n = ring.len() as int;
    let turned = rotate_by(ring, ring.len());
    if n == 0 {
    } else {
        assert forall|i: int| 0 <= i < n implies turned[i] == ring[i] by {
            lemma_rotation_is_cyclic(ring, ring.len(), i);
            lemma_mod_add_multiples_vanish(i, n);
            lemma_small_mod(i as nat, n as nat);
        }
        lemma_rotation_is_cyclic(ring, ring.len(), 0);
        assert(turned =~= ring);
    }
}

/// The layout of the composite pipeline's only bind group: the newest
/// history texture at binding 0, a sampler that does not filter at
/// binding 1.
pub open spec fn spec_composite_layout() -> Seq<LayoutEntry> {
    seq![
        LayoutEntry {
            binding: 0,
            visibility: spec_vertex_fragment(),
            kind: BindingKind::Texture {
                view_dimension: TextureViewDimension::D2,
                filterable: false,
            },
        },
        LayoutEntry {
            binding: 1,
            visibility: spec_vertex_fragment(),
            kind: BindingKind::Sampler { comparison: false, filtering: false },
        },
    ]
}

/// The history ring of the presentation pass. `T` is what the caller keeps
/// for each history texture; the pass orders these and never looks inside.
/// Slot 0 is the target of the frame in progress, slot 1 the finished frame
/// before it.
#[derive(Debug)]
pub struct PresentationPass<T, const HISTORY_DEPTH: usize> {
    render_history: Vec<T>,
    size: Extent3d,
}

impl<T, const HISTORY_DEPTH: usize> PresentationPass<T, HISTORY_DEPTH> {
    /// The history textures, by slot.
    pub closed spec fn history(&self) -> Seq<T> {
        self.render_history@
    }

    /// The size of the history textures and of the depth buffer.
    pub closed spec fn extent(&self) -> Extent3d {
        self.size
    }

    /// The ring holds one texture more than the history is deep.
    pub open spec fn wf(&self) -> bool {
        self.history().len() == HISTORY_DEPTH + 1
    }

    /// The size of the textures of a pass for a surface of `width` by
    /// `height` pixels: one layer of that size.
    pub open spec fn spec_extent(width: u32, height: u32) -> Extent3d {
        Extent3d { width, height, depth_or_array_layers: 1 }
    }

    /// A pass over the given history textures, made for a surface of
    /// `width` by `height` pixels: the first texture is the first target.
    /// There is none where the number of textures is not the depth of the
    /// history and one.
    pub fn new(render_history: Vec<T>, width: u32, height: u32) -> (pass: Option<Self>)
        ensures
            pass is Some <==> render_history.len() == HISTORY_DEPTH + 1,
            pass is Some ==> pass->0.wf() && pass->0.history() == render_history@
                && pass->0.extent() == Self::spec_extent(width, height),
    {
        if HISTORY_DEPTH < usize::MAX && render_history.len() == HISTORY_DEPTH + 1 {
            Some(
                PresentationPass {
                    render_history,
                    size: Extent3d { width, height, depth_or_array_layers: 1 },
                },
            )
        } else {
            None
        }
    }

    /// The plans of the history textures for a surface of `width` by
    /// `height` pixels, by slot. There are none where their number does not
    /// fit the index type of the device.
    pub fn create_textures(width: u32, height: u32, format: TextureFormat) -> (plans: Option<
        Vec<PresentTexture>,
    >)
        ensures
            plans is Some <==> HISTORY_DEPTH + 1 <= u32::MAX,
            plans is Some ==> {
                &&& plans->0.len() == HISTORY_DEPTH + 1
                &&& forall|i: int|
                    0 <= i < plans->0.len() ==> {
                        &&& (#[trigger] plans->0[i]).texture.label@
                            == "Render History Texture "@ + spec_decimal(i as nat)
                        &&& plans->0[i].size == Self::spec_extent(width, height)
                        &&& plans->0[i].texture.size == Self::spec_extent(width, height)
                        &&& plans->0[i].format == format
                        &&& plans->0[i].texture.format == format
                        &&& plans->0[i].dimension == TextureDimension::D2
                        &&& plans->0[i].texture.dimension == TextureDimension::D2
                        &&& plans->0[i].texture.usage
                            == crate::presentation::textures::spec_present_usages()
                        &&& plans->0[i].sampler
                            == crate::presentation::textures::spec_present_sampler()
                        &&& plans->0[i].bind_group_layout@
                            == crate::presentation::textures::spec_present_layout()
                        &&& plans->0[i].bind_group@
                            == crate::presentation::textures::spec_present_bindings()
                    }
            },
    {
        if HISTORY_DEPTH >= 0xffff_ffff {
            return None;
        }
        let count: usize = HISTORY_DEPTH + 1;
        let size = Extent3d { width, height, depth_or_array_layers: 1 };
        let mut plans: Vec<PresentTexture> = Vec::new();
        let mut i: usize = 0;
        while i < count
            invariant
                i <= count,
                count == HISTORY_DEPTH + 1,
                count <= u32::MAX,
                size == Self::spec_extent(width, height),
                plans.len() == i,
                forall|k: int|
                    0 <= k < i ==> {
                        &&& (#[trigger] plans[k]).texture.label@ == "Render History Texture "@
                            + spec_decimal(k as nat)
                        &&& plans[k].size == size
                        &&& plans[k].texture.size == size
                        &&& plans[k].format == format
                        &&& plans[k].texture.format == format
                        &&& plans[k].dimension == TextureDimension::D2
                        &&& plans[k].texture.dimension == TextureDimension::D2
                        &&& plans[k].texture.usage
                            == crate::presentation::textures::spec_present_usages()
                        &&& plans[k].sampler
                            == crate::presentation::textures::spec_present_sampler()
                        &&& plans[k].bind_group_layout@
                            == crate::presentation::textures::spec_present_layout()
                        &&& plans[k].bind_group@
                            == crate::presentation::textures::spec_present_bindings()
                    },
            decreases count - i,
        {
            let label = numbered("Render History Texture ", i as u64);
            plans.push(PresentTexture::new(size, format, TextureDimension::D2, label.as_str()));
            i += 1;
        }
        Some(plans)
    }

    /// The finished frame before the one in progress: slot 1. Shaders read
    /// it while slot 0 is drawn to.
    pub fn get_current_bind_group(&self) -> (texture: &T)
        requires
            self.wf(),
            HISTORY_DEPTH >= 1,
        ensures
            *texture == self.history()[1],
    {
        &self.render_history[1]
    }

    /// The layout of the group that binds a history texture.
    pub fn get_bind_group_layout(&self) -> (layout: Vec<LayoutEntry>)
        ensures
            layout@ == crate::presentation::textures::spec_present_layout(),
    {
        PresentTexture::bind_group_layout()
    }

    /// The size of the depth buffer: that of the history textures.
    pub fn get_depth_texture_size(&self) -> (size: Extent3d)
        ensures
            size == self.extent(),
    {
        self.size
    }

    /// Begins a frame: turns the ring by one slot, so that the oldest
    /// texture becomes the target and the last target becomes slot 1.
    pub fn start_frame(&mut self)
        requires
            old(self).wf(),
        ensures
            final(self).wf(),
            final(self).history() == rotate_once(old(self).history()),
            final(self).extent() == old(self).extent(),
    {
        self.rotate_textures();
    }

    /// The target of the frame in progress: slot 0.
    pub fn create_presentation_view(&self) -> (texture: &T)
        requires
            self.wf(),
        ensures
            *texture == self.history()[0],
    {
        &self.render_history[0]
    }

    /// Takes new history textures, made for a surface of `width` by
    /// `height` pixels. Where their number is not the depth of the history
    /// and one, the pass stays as it is and the result is `false`.
    pub fn resize(&mut self, render_history: Vec<T>, width: u32, height: u32) -> (done: bool)
        requires
            old(self).wf(),
        ensures
            final(self).wf(),
            done <==> render_history.len() == HISTORY_DEPTH + 1,
            done ==> final(self).history() == render_history@ && final(self).extent()
                == Self::spec_extent(width, height),
            !done ==> final(self).history() == old(self).history() && final(self).extent() == old(
                self,
            ).extent(),
    {
        if render_history.len() == self.render_history.len() {
            self.render_history = render_history;
            self.size = Extent3d { width, height, depth_or_array_layers: 1 };
            true
        } else {
            false
        }
    }

    /// The pipeline that copies the newest history texture to the surface:
    /// it overwrites what the surface holds and tests no depth.
    pub fn create_pipeline(format: TextureFormat) -> (pipeline: PipelineDescriptor)
        ensures
            pipeline.label@ == "Presentation Pipeline"@,
            pipeline.bind_group_layouts.len() == 1,
            pipeline.bind_group_layouts[0]@ == spec_composite_layout(),
            pipeline.source is Present,
            pipeline.format == format,
            pipeline.blend == Some(spec_blend_replace()),
            pipeline.depth_stencil is None,
    {
        let layout = vec![
            LayoutEntry {
                binding: 0,
                visibility: vertex_fragment(),
                kind: BindingKind::Texture {
                    view_dimension: TextureViewDimension::D2,
                    filterable: false,
                },
            },
            LayoutEntry {
                binding: 1,
                visibility: vertex_fragment(),
                kind: BindingKind::Sampler { comparison: false, filtering: false },
            },
        ];
        assert(layout@ =~= spec_composite_layout());
        PipelineDescriptor {
            label: "Presentation Pipeline".to_owned(),
            bind_group_layouts: vec![layout],
            source: ShaderSource::Present,
            format,
            blend: Some(blend_replace()),
            depth_stencil: None,
        }
    }

    /// The commands that copy the frame just drawn to the surface: the
    /// composite pipeline, the target of the frame bound as group 0, and
    /// one indexed draw of the quad.
    pub fn present(&self) -> (commands: Vec<DrawCommand>)
        ensures
            commands@ == seq![
                DrawCommand::SetPipeline { pass: 0 },
                DrawCommand::SetBindGroup { index: 0, source: BindSource::Target },
                DrawCommand::SetVertexBuffer { slot: 0 },
                DrawCommand::SetIndexBuffer,
                DrawCommand::DrawIndexed { index_count: 6 },
            ],
    {
        let commands = vec![
            DrawCommand::SetPipeline { pass: 0 },
            DrawCommand::SetBindGroup { index: 0, source: BindSource::Target },
            DrawCommand::SetVertexBuffer { slot: 0 },
            DrawCommand::SetIndexBuffer,
            DrawCommand::DrawIndexed { index_count: 6 },
        ];
        assert(commands@ =~= seq![
            DrawCommand::SetPipeline { pass: 0 },
            DrawCommand::SetBindGroup { index: 0, source: BindSource::Target },
            DrawCommand::SetVertexBuffer { slot: 0 },
            DrawCommand::SetIndexBuffer,
            DrawCommand::DrawIndexed { index_count: 6 },
        ]);
        commands
    }

    fn rotate_textures(&mut self)
        requires
            old(self).wf(),
        ensures
            final(self).wf(),
            final(self).history() == rotate_once(old(self).history()),
            final(self).extent() == old(self).extent(),
    {
        match self.render_history.pop() {
            Some(last) => {
                self.render_history.insert(0, last);
                assert(self.render_history@ =~= rotate_once(old(self).render_history@));
            },
            None => {},
        }
    }
}

} // verus!
