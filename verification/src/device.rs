//! The graphics device as the renderer sees it: what is asked of the
//! adapter, and the size of the surface.

use vstd::prelude::*;
use crate::configuration::graphics::GraphicsConfiguration;
use crate::gpu::{Extent3d, TextureFormat};

verus! {

/// The family of graphics backends to pick an adapter from.
#[derive(Clone, Copy, Debug, PartialEq, Eq, Structural)]
pub enum Backends {
    Primary,
    Secondary,
}

/// When a finished frame is shown.
#[derive(Clone, Copy, Debug, PartialEq, Eq, Structural)]
pub enum PresentMode {
    /// At the next vertical blank, in order.
    Fifo,
    /// At the next vertical blank, the newest frame only.
    Mailbox,
}

/// The features asked of the device beyond the default.
#[derive(Clone, Copy, Debug, PartialEq, Eq, Structural)]
pub struct DeviceFeatures {
    pub shader_float64: bool,
    pub texture_binding_array: bool,
    pub buffer_binding_array: bool,
    pub vertex_writable_storage: bool,
}

/// The limits asked of the device.
#[derive(Clone, Copy, Debug, PartialEq, Eq, Structural)]
pub struct DeviceLimits {
    pub max_texture_dimension_1d: u32,
    pub max_texture_dimension_2d: u32,
    pub max_texture_dimension_3d: u32,
    pub max_texture_array_layers: u32,
    pub max_bind_groups: u32,
    pub max_dynamic_uniform_buffers_per_pipeline_layout: u32,
    pub max_dynamic_storage_buffers_per_pipeline_layout: u32,
    pub max_sampled_textures_per_shader_stage: u32,
    pub max_samplers_per_shader_stage: u32,
    pub max_storage_buffers_per_shader_stage: u32,
    pub max_storage_textures_per_shader_stage: u32,
    pub max_uniform_buffers_per_shader_stage: u32,
    pub max_uniform_buffer_binding_size: u32,
    pub max_storage_buffer_binding_size: u32,
    pub max_vertex_buffers: u32,
    pub max_vertex_attributes: u32,
    pub max_vertex_buffer_array_stride: u32,
    pub max_push_constant_size: u32,
    pub min_uniform_buffer_offset_alignment: u32,
    pub min_storage_buffer_offset_alignment: u32,
}

/// How the surface is configured.
#[derive(Clone, Copy, Debug, PartialEq, Eq, Structural)]
pub struct SurfaceConfiguration {
    pub format: TextureFormat,
    pub width: u32,
    pub height: u32,
    pub present_mode: PresentMode,
}

/// The backends that the settings ask for.
pub open spec fn spec_backends(configuration: GraphicsConfiguration) -> Backends {
    if configuration.prefer_legacy_backends {
        Backends::Secondary
    } else {
        Backends::Primary
    }
}

/// The present mode that the settings ask for.
pub open spec fn spec_present_mode(configuration: GraphicsConfiguration) -> PresentMode {
    if configuration.enable_vsync {
        PresentMode::Fifo
    } else {
        PresentMode::Mailbox
    }
}

/// The limits asked of every device.
pub open spec fn spec_limits() -> DeviceLimits {
    DeviceLimits {
        max_texture_dimension_1d: 8192,
        max_texture_dimension_2d: 8192,
        max_texture_dimension_3d: 2048,
        max_texture_array_layers: 256,
        max_bind_groups: 4,
        max_dynamic_uniform_buffers_per_pipeline_layout: 8,
        max_dynamic_storage_buffers_per_pipeline_layout: 4,
        max_sampled_textures_per_shader_stage: 16,
        max_samplers_per_shader_stage: 16,
        max_storage_buffers_per_shader_stage: 8,
        max_storage_textures_per_shader_stage: 8,
        max_uniform_buffers_per_shader_stage: 12,
        max_uniform_buffer_binding_size: 16384,
        max_storage_buffer_binding_size: 134217728,
        max_vertex_buffers: 8,
        max_vertex_attributes: 16,
        max_vertex_buffer_array_stride: 2048,
        max_push_constant_size: 0,
        min_uniform_buffer_offset_alignment: 256,
        min_storage_buffer_offset_alignment: 256,
    }
}

/// The size of the window and the configuration of its surface.
#[derive(Clone, Copy, Debug, PartialEq, Eq, Structural)]
pub struct GraphicsDevice {
    pub backends: Backends,
    pub surface_configuration: SurfaceConfiguration,
    pub width: u32,
    pub height: u32,
}

impl GraphicsDevice {
    /// The device for a window of `width` by `height` pixels, as the
    /// settings ask for it.
    pub fn new(configuration: &GraphicsConfiguration, width: u32, height: u32) -> (device: Self)
        ensures
            device.backends == spec_backends(*configuration),
            device.surface_configuration == (SurfaceConfiguration {
                format: TextureFormat::Surface,
                width,
                height,
                present_mode: spec_present_mode(*configuration),
            }),
            device.width == width,
            device.height == height,
    {
        let backends = if configuration.prefer_legacy_backends {
            Backends::Secondary
        } else {
            Backends::Primary
        };
        let present_mode = if configuration.enable_vsync {
            PresentMode::Fifo
        } else {
            PresentMode::Mailbox
        };
        GraphicsDevice {
            backends,
            surface_configuration: SurfaceConfiguration {
                format: TextureFormat::Surface,
                width,
                height,
                present_mode,
            },
            width,
            height,
        }
    }

    /// The features asked of the device.
    pub fn features() -> (features: DeviceFeatures)
        ensures
            features == (DeviceFeatures {
                shader_float64: true,
                texture_binding_array: true,
                buffer_binding_array: true,
                vertex_writable_storage: true,
            }),
    {
        DeviceFeatures {
            shader_float64: true,
            texture_binding_array: true,
            buffer_binding_array: true,
            vertex_writable_storage: true,
        }
    }

    /// The limits asked of the device.
    pub fn limits() -> (limits: DeviceLimits)
        ensures
            limits == spec_limits(),
    {
        DeviceLimits {
            max_texture_dimension_1d: 8192,
            max_texture_dimension_2d: 8192,
            max_texture_dimension_3d: 2048,
            max_texture_array_layers: 256,
            max_bind_groups: 4,
            max_dynamic_uniform_buffers_per_pipeline_layout: 8,
            max_dynamic_storage_buffers_per_pipeline_layout: 4,
            max_sampled_textures_per_shader_stage: 16,
            max_samplers_per_shader_stage: 16,
            max_storage_buffers_per_shader_stage: 8,
            max_storage_textures_per_shader_stage: 8,
            max_uniform_buffers_per_shader_stage: 12,
            max_uniform_buffer_binding_size: 16384,
            max_storage_buffer_binding_size: 134217728,
            max_vertex_buffers: 8,
            max_vertex_attributes: 16,
            max_vertex_buffer_array_stride: 2048,
            max_push_constant_size: 0,
            min_uniform_buffer_offset_alignment: 256,
            min_storage_buffer_offset_alignment: 256,
        }
    }

    /// An extent of the surface's width and height and of the given depth.
    pub fn create_extent3d(&self, extent_depth: u32) -> (extent: Extent3d)
        ensures
            extent == (Extent3d {
                width: self.surface_configuration.width,
                height: self.surface_configuration.height,
                depth_or_array_layers: extent_depth,
            }),
    {
        Extent3d {
            width: self.surface_configuration.width,
            height: self.surface_configuration.height,
            depth_or_array_layers: extent_depth,
        }
    }

    pub fn get_format(&self) -> (format: TextureFormat)
        ensures
            format == self.surface_configuration.format,
    {
        self.surface_configuration.format
    }

    /// The size of the window.
    pub fn get_size(&self) -> (size: (u32, u32))
        ensures
            size == (self.width, self.height),
    {
        (self.width, self.height)
    }

    /// Takes a new window size. A size without area is turned down: the
    /// device stays as it is and the result is `false`. Else size and
    /// surface follow, and the surface must be configured anew.
    pub fn resize(&mut self, width: u32, height: u32) -> (resized: bool)
        ensures
            resized == (width > 0 && height > 0),
            !resized ==> *final(self) == *old(self),
            resized ==> *final(self) == (GraphicsDevice {
                width,
                height,
                surface_configuration: SurfaceConfiguration {
                    width,
                    height,
                    ..old(self).surface_configuration
                },
                ..*old(self)
            }),
    {
        if width > 0 && height > 0 {
            self.width = width;
            self.height = height;
            self.surface_configuration.width = width;
            self.surface_configuration.height = height;
            return true;
        }
        false
    }
}

} // verus!
