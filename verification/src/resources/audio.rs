//! The audio resource: waveform and spectrum as two one-dimensional
//! textures and a sampler.

use vstd::prelude::*;
use crate::binding::{
    BindEntry,
    BindingKind,
    BoundResource,
    LayoutEntry,
    TextureViewDimension,
    spec_vertex_fragment,
    vertex_fragment,
};
use crate::events::InputEvent;
use crate::gpu::{
    AddressMode, Extent3d, FilterMode, SamplerDescriptor, TextureDescriptor, TextureDimension,
    TextureFormat, TextureUsages,
};
use crate::resources::CubensisResource;
use crate::stream::AudioStreamInfo;

verus! {

/// The widths of the two audio textures and the lengths of the sample
/// buffers that were seen last.
#[derive(Debug)]
pub struct AudioResource {
    binding_group: u32,
    binding_offset: u32,
    wave_texture_width: u32,
    spectrum_texture_width: u32,
    wave_len: u32,
    spectrum_len: u32,
    audio_stream_info: AudioStreamInfo,
}

impl AudioResource {
    /// The width of the waveform texture, in texels.
    pub closed spec fn wave_width(&self) -> u32 {
        self.wave_texture_width
    }

    /// The width of the spectrum texture, in texels.
    pub closed spec fn spectrum_width(&self) -> u32 {
        self.spectrum_texture_width
    }

    /// The length of the waveform buffer that was seen last.
    pub closed spec fn latest_wave_len(&self) -> u32 {
        self.wave_len
    }

    /// The length of the spectrum buffer that was seen last.
    pub closed spec fn latest_spectrum_len(&self) -> u32 {
        self.spectrum_len
    }

    /// The name of the device that the stream reads.
    pub closed spec fn device_name(&self) -> Seq<char> {
        self.audio_stream_info.device_name@
    }

    /// Whether a texture is narrower or wider than the buffer that it is
    /// to hold.
    pub open spec fn out_of_date(&self) -> bool {
        self.latest_wave_len() != self.wave_width() || self.latest_spectrum_len()
            != self.spectrum_width()
    }

    /// An audio resource whose textures fit buffers of the given lengths.
    pub fn new(
        binding_group: u32,
        binding_offset: u32,
        wave_len: u32,
        spectrum_len: u32,
        audio_stream_info: AudioStreamInfo,
    ) -> (resource: Self)
        ensures
            resource.group() == binding_group,
            resource.offset() == binding_offset,
            resource.wave_width() == wave_len,
            resource.spectrum_width() == spectrum_len,
            resource.latest_wave_len() == wave_len,
            resource.latest_spectrum_len() == spectrum_len,
            resource.device_name() == audio_stream_info.device_name@,
    {
        AudioResource {
            binding_group,
            binding_offset,
            wave_texture_width: wave_len,
            spectrum_texture_width: spectrum_len,
            wave_len,
            spectrum_len,
            audio_stream_info,
        }
    }

    /// The texture that holds a sample buffer of `width` values: one row of
    /// single-precision texels, sampled and written to.
    pub fn create_1d_texture(width: u32, label: &str) -> (descriptor: TextureDescriptor)
        ensures
            descriptor.label@ == label@,
            descriptor.size == (Extent3d { width, height: 1, depth_or_array_layers: 1 }),
            descriptor.mip_level_count == 1,
            descriptor.sample_count == 1,
            descriptor.dimension == TextureDimension::D1,
            descriptor.format == TextureFormat::R32Float,
            descriptor.usage == (TextureUsages {
                render_attachment: false,
                texture_binding: true,
                copy_src: false,
                copy_dst: true,
            }),
    {
        TextureDescriptor {
            label: label.to_owned(),
            size: Extent3d { width, height: 1, depth_or_array_layers: 1 },
            mip_level_count: 1,
            sample_count: 1,
            dimension: TextureDimension::D1,
            format: TextureFormat::R32Float,
            usage: TextureUsages {
                render_attachment: false,
                texture_binding: true,
                copy_src: false,
                copy_dst: true,
            },
        }
    }

    /// The texture of the waveform at its present width.
    pub fn wave_texture(&self) -> (descriptor: TextureDescriptor)
        ensures
            descriptor.label@ == "Wave Data Texture"@,
            descriptor.size == (Extent3d {
                width: self.wave_width(),
                height: 1,
                depth_or_array_layers: 1,
            }),
            descriptor.dimension == TextureDimension::D1,
            descriptor.format == TextureFormat::R32Float,
    {
        Self::create_1d_texture(self.wave_texture_width, "Wave Data Texture")
    }

    /// The texture of the spectrum at its present width.
    pub fn spectrum_texture(&self) -> (descriptor: TextureDescriptor)
        ensures
            descriptor.label@ == "Spectrum Data Texture"@,
            descriptor.size == (Extent3d {
                width: self.spectrum_width(),
                height: 1,
                depth_or_array_layers: 1,
            }),
            descriptor.dimension == TextureDimension::D1,
            descriptor.format == TextureFormat::R32Float,
    {
        Self::create_1d_texture(self.spectrum_texture_width, "Spectrum Data Texture")
    }

    /// The sampler of the audio textures: it takes the nearest texel.
    pub fn sampler() -> (sampler: SamplerDescriptor)
        ensures
            sampler == (SamplerDescriptor {
                address_mode_u: AddressMode::ClampToEdge,
                address_mode_v: AddressMode::ClampToEdge,
                address_mode_w: AddressMode::Repeat,
                mag_filter: FilterMode::Nearest,
                min_filter: FilterMode::Nearest,
                mipmap_filter: FilterMode::Nearest,
                compare: None,
                lod_clamp: None,
            }),
    {
        SamplerDescriptor {
            address_mode_u: AddressMode::ClampToEdge,
            address_mode_v: AddressMode::ClampToEdge,
            address_mode_w: AddressMode::Repeat,
            mag_filter: FilterMode::Nearest,
            min_filter: FilterMode::Nearest,
            mipmap_filter: FilterMode::Nearest,
            compare: None,
            lod_clamp: None,
        }
    }

    pub fn get_stream_info(&self) -> (info: &AudioStreamInfo)
        ensures
            info.device_name@ == self.device_name(),
    {
        &self.audio_stream_info
    }

    /// Takes note of the lengths of the newest sample buffers. The textures
    /// follow at the next update.
    pub fn observe(&mut self, wave_len: u32, spectrum_len: u32)
        ensures
            final(self).latest_wave_len() == wave_len,
            final(self).latest_spectrum_len() == spectrum_len,
            final(self).wave_width() == old(self).wave_width(),
            final(self).spectrum_width() == old(self).spectrum_width(),
            final(self).group() == old(self).group(),
            final(self).offset() == old(self).offset(),
            final(self).device_name() == old(self).device_name(),
    {
        self.wave_len = wave_len;
        self.spectrum_len = spectrum_len;
    }

    /// Whether the waveform texture must be made anew at the next update.
    pub fn wave_out_of_date(&self) -> (stale: bool)
        ensures
            stale == (self.latest_wave_len() != self.wave_width()),
    {
        self.wave_len != self.wave_texture_width
    }

    /// Whether the spectrum texture must be made anew at the next update.
    pub fn spectrum_out_of_date(&self) -> (stale: bool)
        ensures
            stale == (self.latest_spectrum_len() != self.spectrum_width()),
    {
        self.spectrum_len != self.spectrum_texture_width
    }

    pub fn get_wave_texture_width(&self) -> (width: u32)
        ensures
            width == self.wave_width(),
    {
        self.wave_texture_width
    }

    pub fn get_spectrum_texture_width(&self) -> (width: u32)
        ensures
            width == self.spectrum_width(),
    {
        self.spectrum_texture_width
    }
}

impl CubensisResource for AudioResource {
    closed spec fn group(&self) -> u32 {
        self.binding_group
    }

    closed spec fn offset(&self) -> u32 {
        self.binding_offset
    }

    open spec fn size() -> u32 {
        3
    }

    open spec fn layout(&self) -> Seq<LayoutEntry> {
        seq![
            LayoutEntry {
                binding: self.offset(),
                visibility: spec_vertex_fragment(),
                kind: BindingKind::Texture {
                    view_dimension: TextureViewDimension::D1,
                    filterable: false,
                },
            },
            LayoutEntry {
                binding: (self.offset() + 1) as u32,
                visibility: spec_vertex_fragment(),
                kind: BindingKind::Texture {
                    view_dimension: TextureViewDimension::D1,
                    filterable: false,
                },
            },
            LayoutEntry {
                binding: (self.offset() + 2) as u32,
                visibility: spec_vertex_fragment(),
                kind: BindingKind::Sampler { comparison: false, filtering: false },
            },
        ]
    }

    open spec fn bindings(&self) -> Seq<BindEntry> {
        seq![
            BindEntry {
                binding: self.offset(),
                resource: BoundResource::WaveTexture { width: self.wave_width() },
            },
            BindEntry {
                binding: (self.offset() + 1) as u32,
                resource: BoundResource::SpectrumTexture { width: self.spectrum_width() },
            },
            BindEntry { binding: (self.offset() + 2) as u32, resource: BoundResource::AudioSampler },
        ]
    }

    proof fn lemma_shape(&self) {
    }

    fn binding_group(&self) -> (group: u32) {
        self.binding_group
    }

    fn binding_offset(&self) -> (offset: u32) {
        self.binding_offset
    }

    fn binding_size() -> (size: u32) {
        3
    }

    fn next_binding_offset_in_group(&self) -> (next: u32) {
        self.binding_offset + 3
    }

    /// Fits the textures to the buffers seen last. What the resource binds
    /// changes exactly when a width does.
    fn update(&mut self, time_delta_nanos: u128) -> (changed: bool)
        ensures
            changed == old(self).out_of_date(),
            final(self).wave_width() == old(self).latest_wave_len(),
            final(self).spectrum_width() == old(self).latest_spectrum_len(),
            final(self).latest_wave_len() == old(self).latest_wave_len(),
            final(self).latest_spectrum_len() == old(self).latest_spectrum_len(),
            final(self).device_name() == old(self).device_name(),
            !final(self).out_of_date(),
    {
        let mut should_rebuild_bind_group = false;
        if self.wave_len != self.wave_texture_width {
            self.wave_texture_width = self.wave_len;
            should_rebuild_bind_group = true;
        }
        if self.spectrum_len != self.spectrum_texture_width {
            self.spectrum_texture_width = self.spectrum_len;
            should_rebuild_bind_group = true;
        }
        should_rebuild_bind_group
    }

    fn resize(&mut self, width: u32, height: u32)
        ensures
            *final(self) == *old(self),
    {
    }

    fn get_bind_group_layout_entries(&self) -> (entries: Vec<LayoutEntry>) {
        let entries = vec![
            LayoutEntry {
                binding: self.binding_offset,
                visibility: vertex_fragment(),
                kind: BindingKind::Texture {
                    view_dimension: TextureViewDimension::D1,
                    filterable: false,
                },
            },
            LayoutEntry {
                binding: self.binding_offset + 1,
                visibility: vertex_fragment(),
                kind: BindingKind::Texture {
                    view_dimension: TextureViewDimension::D1,
                    filterable: false,
                },
            },
            LayoutEntry {
                binding: self.binding_offset + 2,
                visibility: vertex_fragment(),
                kind: BindingKind::Sampler { comparison: false, filtering: false },
            },
        ];
        assert(entries@ =~= self.layout());
        entries
    }

    fn get_bind_group_entries(&self) -> (entries: Vec<BindEntry>) {
        let entries = vec![
            BindEntry {
                binding: self.binding_offset,
                resource: BoundResource::WaveTexture { width: self.wave_texture_width },
            },
            BindEntry {
                binding: self.binding_offset + 1,
                resource: BoundResource::SpectrumTexture { width: self.spectrum_texture_width },
            },
            BindEntry { binding: self.binding_offset + 2, resource: BoundResource::AudioSampler },
        ];
        assert(entries@ =~= self.bindings());
        entries
    }

    fn handle_or_capture_event(&mut self, event: &InputEvent) -> (captured: bool)
        ensures
            !captured,
            *final(self) == *old(self),
    {
        false
    }
}

} // verus!
