//! The binding model: what a shader sees at each binding index of a bind
//! group, as plain values.

use vstd::prelude::*;

verus! {

/// The shader stages that can see a binding.
#[derive(Clone, Copy, Debug, PartialEq, Eq, Structural)]
pub struct ShaderStages {
    pub vertex: bool,
    pub fragment: bool,
    pub compute: bool,
}

/// Visible to the vertex and the fragment stage.
pub open spec fn spec_vertex_fragment() -> ShaderStages {
    ShaderStages { vertex: true, fragment: true, compute: false }
}

/// Visible to the fragment stage only.
pub open spec fn spec_fragment_only() -> ShaderStages {
    ShaderStages { vertex: false, fragment: true, compute: false }
}

pub fn vertex_fragment() -> (stages: ShaderStages)
    ensures
        stages == spec_vertex_fragment(),
{
    ShaderStages { vertex: true, fragment: true, compute: false }
}

pub fn fragment_only() -> (stages: ShaderStages)
    ensures
        stages == spec_fragment_only(),
{
    ShaderStages { vertex: false, fragment: true, compute: false }
}

/// The dimension of a texture as a shader views it.
#[derive(Clone, Copy, Debug, PartialEq, Eq, Structural)]
pub enum TextureViewDimension {
    D1,
    D2,
}

/// The declared shape of one binding.
#[derive(Clone, Copy, Debug, PartialEq, Eq, Structural)]
pub enum BindingKind {
    /// A uniform buffer without dynamic offset and without minimum size.
    UniformBuffer,
    /// A single-sampled texture of floating-point samples.
    Texture { view_dimension: TextureViewDimension, filterable: bool },
    Sampler { comparison: bool, filtering: bool },
}

/// One entry of a bind group layout.
#[derive(Clone, Copy, Debug, PartialEq, Eq, Structural)]
pub struct LayoutEntry {
    pub binding: u32,
    pub visibility: ShaderStages,
    pub kind: BindingKind,
}

/// What is bound at one binding index.
#[derive(Clone, Copy, Debug, PartialEq, Eq, Structural)]
pub enum BoundResource {
    TimeBuffer,
    CameraBuffer,
    /// The waveform texture, `width` texels wide.
    WaveTexture { width: u32 },
    /// The spectrum texture, `width` texels wide.
    SpectrumTexture { width: u32 },
    AudioSampler,
    /// The view of the asset texture in slot `slot`.
    AssetTexture { slot: u32 },
    AssetSampler,
    /// The view of a render target.
    TargetTexture,
    TargetSampler,
}

/// One entry of a bind group.
#[derive(Clone, Copy, Debug, PartialEq, Eq, Structural)]
pub struct BindEntry {
    pub binding: u32,
    pub resource: BoundResource,
}

/// The entries sit at consecutive binding indices, starting at `offset`.
pub open spec fn layout_is_consecutive(entries: Seq<LayoutEntry>, offset: int) -> bool {
    forall|i: int| 0 <= i < entries.len() ==> (#[trigger] entries[i]).binding == offset + i
}

/// The entries sit at consecutive binding indices, starting at `offset`.
pub open spec fn bindings_are_consecutive(entries: Seq<BindEntry>, offset: int) -> bool {
    forall|i: int| 0 <= i < entries.len() ==> (#[trigger] entries[i]).binding == offset + i
}

/// No two entries share a binding index.
pub open spec fn layout_is_disjoint(entries: Seq<LayoutEntry>) -> bool {
    forall|i: int, j: int|
        0 <= i < j < entries.len() ==> (#[trigger] entries[i]).binding != (
        #[trigger] entries[j]).binding
}

/// Consecutive binding indices never collide.
pub proof fn lemma_consecutive_is_disjoint(entries: Seq<LayoutEntry>, offset: int)
    requires
        layout_is_consecutive(entries, offset),
    ensures
        layout_is_disjoint(entries),
{
}

/// Two consecutive runs, the second starting where the first ends, form
/// one consecutive run.
pub proof fn lemma_consecutive_concat(first: Seq<LayoutEntry>, second: Seq<LayoutEntry>, offset: int)
    requires
        layout_is_consecutive(first, offset),
        layout_is_consecutive(second, offset + first.len()),
    ensures
        layout_is_consecutive(first + second, offset),
{
    assert forall|i: int| 0 <= i < (first + second).len() implies (#[trigger] (first + second)[i]).binding
        == offset + i by {
        if i < first.len() {
            assert((first + second)[i] == first[i]);
        } else {
            assert((first + second)[i] == second[i - first.len()]);
        }
    }
}

/// Copies a layout.
pub fn copy_layout(layout: &Vec<LayoutEntry>) -> (copy: Vec<LayoutEntry>)
    ensures
        copy@ == layout@,
{
    let mut copy: Vec<LayoutEntry> = Vec::new();
    let mut i: usize = 0;
    while i < layout.len()
        invariant
            i <= layout.len(),
            copy@ == layout@.subrange(0, i as int),
        decreases layout.len() - i,
    {
        copy.push(layout[i]);
        assert(copy@ =~= layout@.subrange(0, i + 1));
        i += 1;
    }
    assert(copy@ =~= layout@);
    copy
}

/// The entries of each layout of a list, in order.
pub open spec fn layout_views(layouts: Seq<Vec<LayoutEntry>>) -> Seq<Seq<LayoutEntry>> {
    Seq::new(layouts.len(), |i: int| layouts[i]@)
}

/// Copies a list of layouts.
pub fn copy_layouts(layouts: &Vec<Vec<LayoutEntry>>) -> (copy: Vec<Vec<LayoutEntry>>)
    ensures
        layout_views(copy@) == layout_views(layouts@),
{
    let mut copy: Vec<Vec<LayoutEntry>> = Vec::new();
    let mut i: usize = 0;
    while i < layouts.len()
        invariant
            i <= layouts.len(),
            copy.len() == i,
            forall|k: int| 0 <= k < i ==> copy[k]@ == layouts[k]@,
        decreases layouts.len() - i,
    {
        copy.push(copy_layout(&layouts[i]));
        i += 1;
    }
    assert(layout_views(copy@) =~= layout_views(layouts@));
    copy
}

/// The binding offset that follows a resource that starts at `offset` and
/// occupies `count` bindings, where it fits.
pub fn next_offset(offset: u32, count: u32) -> (next: Option<u32>)
    ensures
        next is Some <==> offset + count <= u32::MAX,
        next is Some ==> next->0 == offset + count,
{
    offset.checked_add(count)
}

} // verus!
