//! The texture resource: five asset textures and one sampler.

use vstd::prelude::*;
use crate::binding::{
    BindEntry,
    BindingKind,
    BoundResource,
    LayoutEntry,
    TextureViewDimension,
    spec_vertex_fragment,
    vertex_fragment,
};
use crate::events::InputEvent;
use crate::gpu::{AddressMode, FilterMode, SamplerDescriptor};
use crate::resources::upload::{
    DecodedImage, TextureError, TextureUpload, create_texture, empty_upload,
    spec_is_asset_texture, spec_is_upload_of,
};
use crate::scene::assets::TextureAsset;
use crate::resources::CubensisResource;
use crate::scene::assets::SceneTextures;

verus! {

/// What reading and decoding the file of an asset has come to.
#[derive(Debug)]
pub enum AssetFile {
    /// The file could not be read.
    Unreadable,
    /// The file holds no image of three 8-bit channels.
    Undecodable,
    /// The image in the file.
    Image(DecodedImage),
}

/// The asset textures of a scene, bound as five textures and a sampler.
#[derive(Debug)]
pub struct TextureResource {
    binding_group: u32,
    binding_offset: u32,
    textures: SceneTextures,
}

/// The layout entry of a two-dimensional asset texture at `binding`.
pub open spec fn spec_asset_texture_entry(binding: u32) -> LayoutEntry {
    LayoutEntry {
        binding,
        visibility: spec_vertex_fragment(),
        kind: BindingKind::Texture { view_dimension: TextureViewDimension::D2, filterable: false },
    }
}

fn asset_texture_entry(binding: u32) -> (entry: LayoutEntry)
    ensures
        entry == spec_asset_texture_entry(binding),
{
    LayoutEntry {
        binding,
        visibility: vertex_fragment(),
        kind: BindingKind::Texture { view_dimension: TextureViewDimension::D2, filterable: false },
    }
}

impl TextureResource {
    /// The assets in the five slots.
    pub closed spec fn assets(&self) -> Seq<Option<Seq<char>>> {
        self.textures@
    }

    /// The five slots.
    pub closed spec fn slots(&self) -> SceneTextures {
        self.textures
    }

    pub fn new(binding_group: u32, binding_offset: u32, textures: SceneTextures) -> (resource: Self)
        ensures
            resource.group() == binding_group,
            resource.offset() == binding_offset,
            resource.assets() == textures@,
    {
        TextureResource { binding_group, binding_offset, textures }
    }

    /// The sampler of the asset textures.
    pub fn sampler() -> (sampler: SamplerDescriptor)
        ensures
            sampler == crate::presentation::textures::spec_present_sampler(),
    {
        SamplerDescriptor {
            address_mode_u: AddressMode::ClampToEdge,
            address_mode_v: AddressMode::ClampToEdge,
            address_mode_w: AddressMode::Repeat,
            mag_filter: FilterMode::Linear,
            min_filter: FilterMode::Nearest,
            mipmap_filter: FilterMode::Nearest,
            compare: None,
            lod_clamp: None,
        }
    }

    /// What is written into the texture of one slot: one transparent texel
    /// for an empty slot, else what the asset's file has come to.
    pub fn create_texture(texture: &Option<TextureAsset>, file: AssetFile) -> (upload: Result<
        TextureUpload,
        TextureError,
    >)
        ensures
            Self::spec_is_slot_upload(upload, *texture, file),
    {
        match texture {
            None => Ok(empty_upload()),
            Some(_) => match file {
                AssetFile::Image(image) => create_texture(Some(image)),
                AssetFile::Undecodable => create_texture(None),
                AssetFile::Unreadable => Err(TextureError::Unreadable),
            },
        }
    }

    /// Whether `upload` is what the texture of a slot is filled with.
    pub open spec fn spec_is_slot_upload(
        upload: Result<TextureUpload, TextureError>,
        texture: Option<TextureAsset>,
        file: AssetFile,
    ) -> bool {
        match texture {
            None => {
                &&& upload is Ok
                &&& spec_is_asset_texture(upload->Ok_0.descriptor, 1, 1)
                &&& upload->Ok_0.data@ == seq![0u8, 0u8, 0u8, 0u8]
                &&& upload->Ok_0.bytes_per_row == Some(4u32)
                &&& upload->Ok_0.rows_per_image == Some(1u32)
            },
            Some(_) => match file {
                AssetFile::Image(image) => spec_is_upload_of(
                    upload,
                    image.width,
                    image.height,
                    image.rgb@,
                ),
                AssetFile::Undecodable => upload == Err::<TextureUpload, TextureError>(
                    TextureError::UnsupportedImage,
                ),
                AssetFile::Unreadable => upload == Err::<TextureUpload, TextureError>(
                    TextureError::Unreadable,
                ),
            },
        }
    }

    /// What is written into the textures of the five slots, by slot;
    /// `files` holds what the file of each slot has come to, by slot.
    /// There is no result where there are not five of them.
    pub fn create_textures(&self, files: Vec<AssetFile>) -> (uploads: Option<
        Vec<Result<TextureUpload, TextureError>>,
    >)
        ensures
            uploads is Some <==> files.len() == 5,
            uploads is Some ==> {
                &&& uploads->0.len() == 5
                &&& Self::spec_is_slot_upload(uploads->0[0], self.slots().texture_1, files[0])
                &&& Self::spec_is_slot_upload(uploads->0[1], self.slots().texture_2, files[1])
                &&& Self::spec_is_slot_upload(uploads->0[2], self.slots().texture_3, files[2])
                &&& Self::spec_is_slot_upload(uploads->0[3], self.slots().texture_4, files[3])
                &&& Self::spec_is_slot_upload(uploads->0[4], self.slots().texture_5, files[4])
            },
    {
        if files.len() != 5 {
            return None;
        }
        let mut rest = files;
        let fifth = rest.remove(4);
        let fourth = rest.remove(3);
        let third = rest.remove(2);
        let second = rest.remove(1);
        let first = rest.remove(0);
        let mut uploads: Vec<Result<TextureUpload, TextureError>> = Vec::new();
        uploads.push(Self::create_texture(&self.textures.texture_1, first));
        uploads.push(Self::create_texture(&self.textures.texture_2, second));
        uploads.push(Self::create_texture(&self.textures.texture_3, third));
        uploads.push(Self::create_texture(&self.textures.texture_4, fourth));
        uploads.push(Self::create_texture(&self.textures.texture_5, fifth));
        Some(uploads)
    }

    /// The assets in the five slots.
    pub fn get_textures(&self) -> (textures: &SceneTextures)
        ensures
            textures@ == self.assets(),
            *textures == self.slots(),
    {
        &self.textures
    }
}

impl CubensisResource for TextureResource {
    closed spec fn group(&self) -> u32 {
        self.binding_group
    }

    closed spec fn offset(&self) -> u32 {
        self.binding_offset
    }

    open spec fn size() -> u32 {
        6
    }

    open spec fn layout(&self) -> Seq<LayoutEntry> {
        seq![
            spec_asset_texture_entry(self.offset()),
            spec_asset_texture_entry((self.offset() + 1) as u32),
            spec_asset_texture_entry((self.offset() + 2) as u32),
            spec_asset_texture_entry((self.offset() + 3) as u32),
            spec_asset_texture_entry((self.offset() + 4) as u32),
            LayoutEntry {
                binding: (self.offset() + 5) as u32,
                visibility: spec_vertex_fragment(),
                kind: BindingKind::Sampler { comparison: false, filtering: true },
            },
        ]
    }

    open spec fn bindings(&self) -> Seq<BindEntry> {
        seq![
            BindEntry { binding: self.offset(), resource: BoundResource::AssetTexture { slot: 0 } },
            BindEntry {
                binding: (self.offset() + 1) as u32,
                resource: BoundResource::AssetTexture { slot: 1 },
            },
            BindEntry {
                binding: (self.offset() + 2) as u32,
                resource: BoundResource::AssetTexture { slot: 2 },
            },
            BindEntry {
                binding: (self.offset() + 3) as u32,
                resource: BoundResource::AssetTexture { slot: 3 },
            },
            BindEntry {
                binding: (self.offset() + 4) as u32,
                resource: BoundResource::AssetTexture { slot: 4 },
            },
            BindEntry { binding: (self.offset() + 5) as u32, resource: BoundResource::AssetSampler },
        ]
    }

    proof fn lemma_shape(&self) {
    }

    fn binding_group(&self) -> (group: u32) {
        self.binding_group
    }

    fn binding_offset(&self) -> (offset: u32) {
        self.binding_offset
    }

    fn binding_size() -> (size: u32) {
        6
    }

    fn next_binding_offset_in_group(&self) -> (next: u32) {
        self.binding_offset + 6
    }

    /// Asset textures never change.
    fn update(&mut self, time_delta_nanos: u128) -> (changed: bool)
        ensures
            !changed,
            *final(self) == *old(self),
    {
        false
    }

    fn resize(&mut self, width: u32, height: u32)
        ensures
            *final(self) == *old(self),
    {
    }

    fn get_bind_group_layout_entries(&self) -> (entries: Vec<LayoutEntry>) {
        let entries = vec![
            asset_texture_entry(self.binding_offset),
            asset_texture_entry(self.binding_offset + 1),
            asset_texture_entry(self.binding_offset + 2),
            asset_texture_entry(self.binding_offset + 3),
            asset_texture_entry(self.binding_offset + 4),
            LayoutEntry {
                binding: self.binding_offset + 5,
                visibility: vertex_fragment(),
                kind: BindingKind::Sampler { comparison: false, filtering: true },
            },
        ];
        assert(entries@ =~= self.layout());
        entries
    }

    fn get_bind_group_entries(&self) -> (entries: Vec<BindEntry>) {
        let entries = vec![
            BindEntry {
                binding: self.binding_offset,
                resource: BoundResource::AssetTexture { slot: 0 },
            },
            BindEntry {
                binding: self.binding_offset + 1,
                resource: BoundResource::AssetTexture { slot: 1 },
            },
            BindEntry {
                binding: self.binding_offset + 2,
                resource: BoundResource::AssetTexture { slot: 2 },
            },
            BindEntry {
                binding: self.binding_offset + 3,
                resource: BoundResource::AssetTexture { slot: 3 },
            },
            BindEntry {
                binding: self.binding_offset + 4,
                resource: BoundResource::AssetTexture { slot: 4 },
            },
            BindEntry { binding: self.binding_offset + 5, resource: BoundResource::AssetSampler },
        ];
        assert(entries@ =~= self.bindings());
        entries
    }

    fn handle_or_capture_event(&mut self, event: &InputEvent) -> (captured: bool)
        ensures
            !captured,
            *final(self) == *old(self),
    {
        false
    }
}

} // verus!
