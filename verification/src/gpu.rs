//! Descriptors of the objects that the graphics device is asked to make,
//! as plain values.

use vstd::prelude::*;
use crate::binding::LayoutEntry;

verus! {

#[derive(Clone, Copy, Debug, PartialEq, Eq, Structural)]
pub enum TextureDimension {
    D1,
    D2,
    D3,
}

#[derive(Clone, Copy, Debug, PartialEq, Eq, Structural)]
pub enum TextureFormat {
    /// The format of the surface that frames are presented to.
    Surface,
    R32Float,
    Rgba8UnormSrgb,
    Depth32Float,
}

/// What a texture may be used for.
#[derive(Clone, Copy, Debug, PartialEq, Eq, Structural)]
pub struct TextureUsages {
    pub render_attachment: bool,
    pub texture_binding: bool,
    pub copy_src: bool,
    pub copy_dst: bool,
}

#[derive(Clone, Copy, Debug, PartialEq, Eq, Structural)]
pub struct Extent3d {
    pub width: u32,
    pub height: u32,
    pub depth_or_array_layers: u32,
}

/// A texture to make.
#[derive(Debug)]
pub struct TextureDescriptor {
    pub label: String,
    pub size: Extent3d,
    pub mip_level_count: u32,
    pub sample_count: u32,
    pub dimension: TextureDimension,
    pub format: TextureFormat,
    pub usage: TextureUsages,
}

#[derive(Clone, Copy, Debug, PartialEq, Eq, Structural)]
pub enum AddressMode {
    ClampToEdge,
    Repeat,
}

#[derive(Clone, Copy, Debug, PartialEq, Eq, Structural)]
pub enum FilterMode {
    Nearest,
    Linear,
}

#[derive(Clone, Copy, Debug, PartialEq, Eq, Structural)]
pub enum CompareFunction {
    Less,
    LessEqual,
}

/// The lowest and the highest level of detail of a sampler, as whole
/// numbers.
#[derive(Clone, Copy, Debug, PartialEq, Eq, Structural)]
pub struct LodClamp {
    pub min: i32,
    pub max: i32,
}

/// A sampler to make. Where `lod_clamp` is absent the device's own range
/// of detail levels holds.
#[derive(Clone, Copy, Debug, PartialEq, Eq, Structural)]
pub struct SamplerDescriptor {
    pub address_mode_u: AddressMode,
    pub address_mode_v: AddressMode,
    pub address_mode_w: AddressMode,
    pub mag_filter: FilterMode,
    pub min_filter: FilterMode,
    pub mipmap_filter: FilterMode,
    pub compare: Option<CompareFunction>,
    pub lod_clamp: Option<LodClamp>,
}

#[derive(Clone, Copy, Debug, PartialEq, Eq, Structural)]
pub enum BlendFactor {
    Zero,
    One,
    SrcAlpha,
    OneMinusSrcAlpha,
}

#[derive(Clone, Copy, Debug, PartialEq, Eq, Structural)]
pub enum BlendOperation {
    Add,
}

/// How one channel group of a fragment is combined with the target.
#[derive(Clone, Copy, Debug, PartialEq, Eq, Structural)]
pub struct BlendComponent {
    pub src_factor: BlendFactor,
    pub dst_factor: BlendFactor,
    pub operation: BlendOperation,
}

/// How the colour and the alpha of a fragment are combined with the target.
#[derive(Clone, Copy, Debug, PartialEq, Eq, Structural)]
pub struct BlendState {
    pub color: BlendComponent,
    pub alpha: BlendComponent,
}

/// The fragment overwrites the target.
pub open spec fn spec_blend_replace() -> BlendState {
    BlendState {
        color: BlendComponent {
            src_factor: BlendFactor::One,
            dst_factor: BlendFactor::Zero,
            operation: BlendOperation::Add,
        },
        alpha: BlendComponent {
            src_factor: BlendFactor::One,
            dst_factor: BlendFactor::Zero,
            operation: BlendOperation::Add,
        },
    }
}

/// The fragment is laid over the target by its alpha.
pub open spec fn spec_blend_alpha() -> BlendState {
    BlendState {
        color: BlendComponent {
            src_factor: BlendFactor::SrcAlpha,
            dst_factor: BlendFactor::OneMinusSrcAlpha,
            operation: BlendOperation::Add,
        },
        alpha: BlendComponent {
            src_factor: BlendFactor::One,
            dst_factor: BlendFactor::OneMinusSrcAlpha,
            operation: BlendOperation::Add,
        },
    }
}

pub fn blend_replace() -> (state: BlendState)
    ensures
        state == spec_blend_replace(),
{
    BlendState {
        color: BlendComponent {
            src_factor: BlendFactor::One,
            dst_factor: BlendFactor::Zero,
            operation: BlendOperation::Add,
        },
        alpha: BlendComponent {
            src_factor: BlendFactor::One,
            dst_factor: BlendFactor::Zero,
            operation: BlendOperation::Add,
        },
    }
}

pub fn blend_alpha() -> (state: BlendState)
    ensures
        state == spec_blend_alpha(),
{
    BlendState {
        color: BlendComponent {
            src_factor: BlendFactor::SrcAlpha,
            dst_factor: BlendFactor::OneMinusSrcAlpha,
            operation: BlendOperation::Add,
        },
        alpha: BlendComponent {
            src_factor: BlendFactor::One,
            dst_factor: BlendFactor::OneMinusSrcAlpha,
            operation: BlendOperation::Add,
        },
    }
}

/// Where the code of a pipeline's shader module comes from.
#[derive(Debug)]
pub enum ShaderSource {
    /// The shader that copies the newest history texture to the surface.
    Present,
    /// The WGSL text given.
    Wgsl(String),
}

/// Depth test and write of a pipeline.
#[derive(Clone, Copy, Debug, PartialEq, Eq, Structural)]
pub struct DepthStencil {
    pub format: TextureFormat,
    pub depth_write_enabled: bool,
    pub depth_compare: CompareFunction,
}

/// A render pipeline to make. Every pipeline draws triangle lists wound
/// clockwise, culls back faces, fills polygons, takes one sample per pixel
/// and enters both of its stages at `main`; what differs stands here.
#[derive(Debug)]
pub struct PipelineDescriptor {
    pub label: String,
    /// The layouts of the bind groups, by group index.
    pub bind_group_layouts: Vec<Vec<LayoutEntry>>,
    pub source: ShaderSource,
    pub format: TextureFormat,
    pub blend: Option<BlendState>,
    pub depth_stencil: Option<DepthStencil>,
}

} // verus!
