//! The depth buffer of the render passes.

use vstd::prelude::*;
use crate::binding::{
    BindEntry, BindingKind, BoundResource, LayoutEntry, TextureViewDimension, fragment_only,
    spec_fragment_only,
};
use crate::gpu::{
    AddressMode, CompareFunction, Extent3d, FilterMode, LodClamp, SamplerDescriptor,
    TextureDescriptor, TextureDimension, TextureFormat, TextureUsages,
};

verus! {

/// What it takes to make the depth buffer: the texture, a comparison
/// sampler, and the group that binds the two.
#[derive(Debug)]
pub struct DepthTexture {
    pub texture: TextureDescriptor,
    pub sampler: SamplerDescriptor,
    pub size: Extent3d,
    pub bind_group_layout: Vec<LayoutEntry>,
    pub bind_group: Vec<BindEntry>,
}

/// The layout of the group that binds the depth buffer: the texture at
/// binding 0, its comparison sampler at binding 1, for the fragment stage.
pub open spec fn spec_depth_layout() -> Seq<LayoutEntry> {
    seq![
        LayoutEntry {
            binding: 0,
            visibility: spec_fragment_only(),
            kind: BindingKind::Texture { view_dimension: TextureViewDimension::D2, filterable: true },
        },
        LayoutEntry {
            binding: 1,
            visibility: spec_fragment_only(),
            kind: BindingKind::Sampler { comparison: true, filtering: true },
        },
    ]
}

/// The sampler of the depth buffer.
pub open spec fn spec_depth_sampler() -> SamplerDescriptor {
    SamplerDescriptor {
        address_mode_u: AddressMode::ClampToEdge,
        address_mode_v: AddressMode::ClampToEdge,
        address_mode_w: AddressMode::ClampToEdge,
        mag_filter: FilterMode::Linear,
        min_filter: FilterMode::Linear,
        mipmap_filter: FilterMode::Nearest,
        compare: Some(CompareFunction::LessEqual),
        lod_clamp: Some(LodClamp { min: -100i32, max: 100i32 }),
    }
}

impl DepthTexture {
    pub fn bind_group_layout() -> (layout: Vec<LayoutEntry>)
        ensures
            layout@ == spec_depth_layout(),
    {
        let layout = vec![
            LayoutEntry {
                binding: 0,
                visibility: fragment_only(),
                kind: BindingKind::Texture {
                    view_dimension: TextureViewDimension::D2,
                    filterable: true,
                },
            },
            LayoutEntry {
                binding: 1,
                visibility: fragment_only(),
                kind: BindingKind::Sampler { comparison: true, filtering: true },
            },
        ];
        assert(layout@ =~= spec_depth_layout());
        layout
    }

    /// The plan of a depth buffer of the given size.
    pub fn new(size: Extent3d) -> (plan: Self)
        ensures
            plan.texture.label@ == "Depth Buffer"@,
            plan.texture.size == size,
            plan.texture.mip_level_count == 1,
            plan.texture.sample_count == 1,
            plan.texture.dimension == TextureDimension::D2,
            plan.texture.format == TextureFormat::Depth32Float,
            plan.texture.usage == (TextureUsages {
                render_attachment: true,
                texture_binding: true,
                copy_src: false,
                copy_dst: false,
            }),
            plan.sampler == spec_depth_sampler(),
            plan.size == size,
            plan.bind_group_layout@ == spec_depth_layout(),
            plan.bind_group@ == seq![
                BindEntry { binding: 0, resource: BoundResource::TargetTexture },
                BindEntry { binding: 1, resource: BoundResource::TargetSampler },
            ],
    {
        let texture = TextureDescriptor {
            label: "Depth Buffer".to_owned(),
            size,
            mip_level_count: 1,
            sample_count: 1,
            dimension: TextureDimension::D2,
            format: TextureFormat::Depth32Float,
            usage: TextureUsages {
                render_attachment: true,
                texture_binding: true,
                copy_src: false,
                copy_dst: false,
            },
        };
        let sampler = SamplerDescriptor {
            address_mode_u: AddressMode::ClampToEdge,
            address_mode_v: AddressMode::ClampToEdge,
            address_mode_w: AddressMode::ClampToEdge,
            mag_filter: FilterMode::Linear,
            min_filter: FilterMode::Linear,
            mipmap_filter: FilterMode::Nearest,
            compare: Some(CompareFunction::LessEqual),
            lod_clamp: Some(LodClamp { min: -100, max: 100 }),
        };
        let bind_group = vec![
            BindEntry { binding: 0, resource: BoundResource::TargetTexture },
            BindEntry { binding: 1, resource: BoundResource::TargetSampler },
        ];
        assert(bind_group@ =~= seq![
            BindEntry { binding: 0, resource: BoundResource::TargetTexture },
            BindEntry { binding: 1, resource: BoundResource::TargetSampler },
        ]);
        DepthTexture {
            texture,
            sampler,
            size,
            bind_group_layout: Self::bind_group_layout(),
            bind_group,
        }
    }
}

} // verus!
