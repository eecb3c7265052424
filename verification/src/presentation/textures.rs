//! The render targets of the history ring.

use vstd::prelude::*;
use crate::binding::{
    BindEntry, BindingKind, BoundResource, LayoutEntry, TextureViewDimension,
    spec_vertex_fragment, vertex_fragment,
};
use crate::gpu::{
    AddressMode, Extent3d, FilterMode, SamplerDescriptor, TextureDescriptor, TextureDimension,
    TextureFormat, TextureUsages,
};

verus! {

/// What it takes to make one texture of the history ring: a texture that
/// is both drawn to and sampled, its sampler, and the group that binds the
/// two.
#[derive(Debug)]
pub struct PresentTexture {
    pub texture: TextureDescriptor,
    pub sampler: SamplerDescriptor,
    pub size: Extent3d,
    pub format: TextureFormat,
    pub dimension: TextureDimension,
    pub bind_group_layout: Vec<LayoutEntry>,
    pub bind_group: Vec<BindEntry>,
}

/// The layout of the group that binds a history texture: the texture at
/// binding 0, its sampler at binding 1.
pub open spec fn spec_present_layout() -> Seq<LayoutEntry> {
    seq![
        LayoutEntry {
            binding: 0,
            visibility: spec_vertex_fragment(),
            kind: BindingKind::Texture {
                view_dimension: TextureViewDimension::D2,
                filterable: false,
            },
        },
        LayoutEntry {
            binding: 1,
            visibility: spec_vertex_fragment(),
            kind: BindingKind::Sampler { comparison: false, filtering: true },
        },
    ]
}

/// What a history texture's group binds.
pub open spec fn spec_present_bindings() -> Seq<BindEntry> {
    seq![
        BindEntry { binding: 0, resource: BoundResource::TargetTexture },
        BindEntry { binding: 1, resource: BoundResource::TargetSampler },
    ]
}

/// The usages of a history texture: drawn to, sampled, copied from and to.
pub open spec fn spec_present_usages() -> TextureUsages {
    TextureUsages { render_attachment: true, texture_binding: true, copy_src: true, copy_dst: true }
}

/// The sampler of a history texture.
pub open spec fn spec_present_sampler() -> SamplerDescriptor {
    SamplerDescriptor {
        address_mode_u: AddressMode::ClampToEdge,
        address_mode_v: AddressMode::ClampToEdge,
        address_mode_w: AddressMode::Repeat,
        mag_filter: FilterMode::Linear,
        min_filter: FilterMode::Nearest,
        mipmap_filter: FilterMode::Nearest,
        compare: None,
        lod_clamp: None,
    }
}

impl PresentTexture {
    pub fn bind_group_layout() -> (layout: Vec<LayoutEntry>)
        ensures
            layout@ == spec_present_layout(),
    {
        let layout = vec![
            LayoutEntry {
                binding: 0,
                visibility: vertex_fragment(),
                kind: BindingKind::Texture {
                    view_dimension: TextureViewDimension::D2,
                    filterable: false,
                },
            },
            LayoutEntry {
                binding: 1,
                visibility: vertex_fragment(),
                kind: BindingKind::Sampler { comparison: false, filtering: true },
            },
        ];
        assert(layout@ =~= spec_present_layout());
        layout
    }

    /// The plan of a history texture of the given size, format and
    /// dimension.
    pub fn new(
        size: Extent3d,
        format: TextureFormat,
        dimension: TextureDimension,
        label: &str,
    ) -> (plan: Self)
        ensures
            plan.texture.label@ == label@,
            plan.texture.size == size,
            plan.texture.mip_level_count == 1,
            plan.texture.sample_count == 1,
            plan.texture.dimension == dimension,
            plan.texture.format == format,
            plan.texture.usage == spec_present_usages(),
            plan.sampler == spec_present_sampler(),
            plan.size == size,
            plan.format == format,
            plan.dimension == dimension,
            plan.bind_group_layout@ == spec_present_layout(),
            plan.bind_group@ == spec_present_bindings(),
    {
        let texture = TextureDescriptor {
            label: label.to_owned(),
            size,
            mip_level_count: 1,
            sample_count: 1,
            dimension,
            format,
            usage: TextureUsages {
                render_attachment: true,
                texture_binding: true,
                copy_src: true,
                copy_dst: true,
            },
        };
        let sampler = SamplerDescriptor {
            address_mode_u: AddressMode::ClampToEdge,
            address_mode_v: AddressMode::ClampToEdge,
            address_mode_w: AddressMode::Repeat,
            mag_filter: FilterMode::Linear,
            min_filter: FilterMode::Nearest,
            mipmap_filter: FilterMode::Nearest,
            compare: None,
            lod_clamp: None,
        };
        let bind_group = vec![
            BindEntry { binding: 0, resource: BoundResource::TargetTexture },
            BindEntry { binding: 1, resource: BoundResource::TargetSampler },
        ];
        assert(bind_group@ =~= spec_present_bindings());
        PresentTexture {
            texture,
            sampler,
            size,
            format,
            dimension,
            bind_group_layout: Self::bind_group_layout(),
            bind_group,
        }
    }
}

} // verus!
