//! What is written into the asset textures.

use vstd::prelude::*;
use crate::gpu::{Extent3d, TextureDescriptor, TextureDimension, TextureFormat, TextureUsages};

verus! {

/// An image as it comes out of its file: its size and its pixels, three
/// bytes each, row by row. Decoding the file is the caller's.
#[derive(Debug)]
pub struct DecodedImage {
    pub width: u32,
    pub height: u32,
    pub rgb: Vec<u8>,
}

/// Why an image file cannot fill a texture.
#[derive(Clone, Copy, Debug, PartialEq, Eq, Structural)]
pub enum TextureError {
    /// The bytes are no image of a known format, or no image of three
    /// 8-bit channels.
    UnsupportedImage,
    /// A row of the texture would not fit the row pitch of the device.
    TooWide,
    /// The file of the asset could not be read.
    Unreadable,
}

/// A texture to make and the bytes to write into it.
#[derive(Debug)]
pub struct TextureUpload {
    pub descriptor: TextureDescriptor,
    pub data: Vec<u8>,
    /// The bytes from one row to the next, where that is not zero.
    pub bytes_per_row: Option<u32>,
    /// The rows of the image, where that is not zero.
    pub rows_per_image: Option<u32>,
}

/// The number of bytes that every upload of an image holds.
pub const UPLOAD_SIZE: usize = 67108864;

/// `bytes` cut or filled with zeros to `size` bytes.
pub open spec fn spec_padded(bytes: Seq<u8>, size: nat) -> Seq<u8> {
    Seq::new(
        size,
        |i: int|
            if i < bytes.len() {
                bytes[i]
            } else {
                0u8
            },
    )
}

/// `n` where it is not zero.
pub open spec fn spec_non_zero(n: u32) -> Option<u32> {
    if n == 0 {
        None
    } else {
        Some(n)
    }
}

fn non_zero(n: u32) -> (some: Option<u32>)
    ensures
        some == spec_non_zero(n),
{
    if n == 0 {
        None
    } else {
        Some(n)
    }
}

/// Whether `descriptor` describes an asset texture of `width` by `height`
/// texels: one layer of 8-bit sRGB colour with alpha, sampled and written
/// to.
pub open spec fn spec_is_asset_texture(descriptor: TextureDescriptor, width: u32, height: u32) -> bool {
    &&& descriptor.label@ == "Asset Texture"@
    &&& descriptor.size == (Extent3d { width, height, depth_or_array_layers: 1 })
    &&& descriptor.mip_level_count == 1
    &&& descriptor.sample_count == 1
    &&& descriptor.dimension == TextureDimension::D2
    &&& descriptor.format == TextureFormat::Rgba8UnormSrgb
    &&& descriptor.usage == (TextureUsages {
        render_attachment: false,
        texture_binding: true,
        copy_src: false,
        copy_dst: true,
    })
}

fn asset_texture(width: u32, height: u32) -> (descriptor: TextureDescriptor)
    ensures
        spec_is_asset_texture(descriptor, width, height),
{
    TextureDescriptor {
        label: "Asset Texture".to_owned(),
        size: Extent3d { width, height, depth_or_array_layers: 1 },
        mip_level_count: 1,
        sample_count: 1,
        dimension: TextureDimension::D2,
        format: TextureFormat::Rgba8UnormSrgb,
        usage: TextureUsages {
            render_attachment: false,
            texture_binding: true,
            copy_src: false,
            copy_dst: true,
        },
    }
}

/// Whether `upload` is what an image comes to: a texture of the image's
/// size, rows of four bytes a texel, and the image's bytes cut or filled to
/// the fixed upload size. An image whose rows would exceed the row pitch
/// has no upload.
pub open spec fn spec_is_upload_of(
    upload: Result<TextureUpload, TextureError>,
    width: u32,
    height: u32,
    rgb: Seq<u8>,
) -> bool {
    match upload {
        Ok(upload) => {
            &&& 4 * width <= u32::MAX
            &&& spec_is_asset_texture(upload.descriptor, width, height)
            &&& upload.data@ == spec_padded(rgb, UPLOAD_SIZE as nat)
            &&& upload.bytes_per_row == spec_non_zero((4 * width) as u32)
            &&& upload.rows_per_image == spec_non_zero(height)
        },
        Err(error) => 4 * width > u32::MAX && error == TextureError::TooWide,
    }
}

/// The upload for an empty texture slot: one transparent black texel.
pub fn empty_upload() -> (upload: TextureUpload)
    ensures
        spec_is_asset_texture(upload.descriptor, 1, 1),
        upload.data@ == seq![0u8, 0u8, 0u8, 0u8],
        upload.bytes_per_row == Some(4u32),
        upload.rows_per_image == Some(1u32),
{
    let data: Vec<u8> = vec![0, 0, 0, 0];
    assert(data@ =~= seq![0u8, 0u8, 0u8, 0u8]);
    TextureUpload {
        descriptor: asset_texture(1, 1),
        data,
        bytes_per_row: Some(4),
        rows_per_image: Some(1),
    }
}

/// The upload for a decoded image.
pub fn plan_upload(image: DecodedImage) -> (upload: Result<TextureUpload, TextureError>)
    ensures
        spec_is_upload_of(upload, image.width, image.height, image.rgb@),
{
    let bytes_per_row = match image.width.checked_mul(4) {
        Some(bytes) => bytes,
        None => {
            return Err(TextureError::TooWide);
        },
    };
    let ghost rgb = image.rgb@;
    let mut data = image.rgb;
    data.resize(UPLOAD_SIZE, 0);
    assert(data@ =~= spec_padded(rgb, UPLOAD_SIZE as nat)) by {
        assert forall|i: int| 0 <= i < UPLOAD_SIZE implies data@[i] == spec_padded(
            rgb,
            UPLOAD_SIZE as nat,
        )[i] by {
            if rgb.len() < UPLOAD_SIZE {
                if i < rgb.len() {
                    assert(data@.subrange(0, rgb.len() as int)[i] == rgb[i]);
                } else {
                    assert(vstd::pervasive::cloned::<u8>(0u8, data@[i]));
                }
            }
        }
    }
    Ok(
        TextureUpload {
            descriptor: asset_texture(image.width, image.height),
            data,
            bytes_per_row: non_zero(bytes_per_row),
            rows_per_image: non_zero(image.height),
        },
    )
}

/// The value of an image that may have come out of a file: its size and
/// its bytes.
pub open spec fn decoded_view(decoded: Option<DecodedImage>) -> Option<(u32, u32, Seq<u8>)> {
    match decoded {
        Some(image) => Some((image.width, image.height, image.rgb@)),
        None => None,
    }
}

/// What decoding an asset's file comes to: no upload where the file held
/// no image, else the upload of the image.
pub open spec fn spec_is_texture_of(
    upload: Result<TextureUpload, TextureError>,
    decoded: Option<(u32, u32, Seq<u8>)>,
) -> bool {
    match decoded {
        None => upload == Err::<TextureUpload, TextureError>(TextureError::UnsupportedImage),
        Some(image) => spec_is_upload_of(upload, image.0, image.1, image.2),
    }
}

/// The upload for an asset, given what decoding its file has come to:
/// the image, or nothing where the file holds no image of three 8-bit
/// channels.
pub fn create_texture(decoded: Option<DecodedImage>) -> (upload: Result<TextureUpload, TextureError>)
    ensures
        spec_is_texture_of(upload, decoded_view(decoded)),
{
    match decoded {
        Some(image) => plan_upload(image),
        None => Err(TextureError::UnsupportedImage),
    }
}

} // verus!
