//! Loading assets from the bytes of a PNG file and a metadata record.

use vstd::prelude::*;
use bevy::asset::RenderAssetUsages;
use bevy::image::{CompressedImageFormats, Image, ImageSampler, ImageType, TextureError};
use crate::block::Material;
use crate::error::{decode_outcome, LoadError};
use crate::meta::{MaterialMeta, TextureMeta, TileMeta};
use crate::texture::TileTexture;
use crate::tile::Tile;

verus! {

/// Where a PNG file states the width of its image.
pub const PNG_WIDTH_AT: usize = 16;

/// Where a PNG file states the height of its image.
pub const PNG_HEIGHT_AT: usize = 20;

/// Length of the part of a PNG file that ends with the width and height.
pub const PNG_EXTENT_END: usize = 24;

/// The most pixels an image may have for the decoder to count them.
pub const PNG_MAX_PIXELS: u64 = 0xffff_ffff;

/// The number that the four bytes from `at` on spell, highest byte first.
pub open spec fn be_u32(bytes: Seq<u8>, at: int) -> int {
    bytes[at] * 0x100_0000 + bytes[at + 1] * 0x1_0000 + bytes[at + 2] * 0x100 + bytes[at + 3]
}

/// The number of pixels that the header of a PNG file declares: its width
/// times its height.
pub open spec fn png_declared_pixels(bytes: Seq<u8>) -> int {
    be_u32(bytes, PNG_WIDTH_AT as int) * be_u32(bytes, PNG_HEIGHT_AT as int)
}

/// The bytes begin as a PNG file does: with the signature, and with a
/// first chunk that is tagged as the header and reaches to the end of the
/// width and height.
pub open spec fn png_has_header(bytes: Seq<u8>) -> bool {
    &&& bytes.len() >= PNG_EXTENT_END
    &&& bytes[0] == 137 && bytes[1] == 80 && bytes[2] == 78 && bytes[3] == 71
    &&& bytes[4] == 13 && bytes[5] == 10 && bytes[6] == 26 && bytes[7] == 10
    &&& bytes[12] == 73 && bytes[13] == 72 && bytes[14] == 68 && bytes[15] == 82
}

/// The bytes declare no more pixels than the decoder counts. Bytes that do
/// not begin as a PNG file declare none.
pub open spec fn png_extent_fits(bytes: Seq<u8>) -> bool {
    png_has_header(bytes) ==> png_declared_pixels(bytes) <= PNG_MAX_PIXELS
}

/// What bevy's `Image::from_buffer` yields for the bytes of a PNG file, read
/// as sRGB or not: `None` for an error, `Some(None)` for an image without
/// pixel data, else the pixel data.
pub uninterp spec fn decoded_png(bytes: Seq<u8>, is_srgb: bool) -> Option<Option<Seq<u8>>>;

/// What the bytes of a PNG file, read as sRGB, decode to.
pub open spec fn png_image_data(bytes: Seq<u8>) -> Option<Option<Seq<u8>>> {
    decoded_png(bytes, true)
}

/// Calls bevy's `Image::from_buffer` on the bytes of a file, read as PNG
/// (by the extension `png`, with no compressed format supported and the
/// default sampler and usages), and hands back the `data` field of the
/// image that it returns, or its error.
///
/// Trusted, not proved: the outcome of the call is a function of the bytes
/// and the colour space alone, the one that `decoded_png` names. Nothing is
/// claimed of which bytes decode, nor of what they decode to.
///
/// The decoder refuses bytes that do not begin with the signature and the
/// header chunk, reads the image's width and height where
/// `png_declared_pixels` reads them, and bevy multiplies the two as 32-bit
/// numbers: the call is made only for bytes whose product fits.
#[verifier::external_body]
fn decode_png(bytes: &Vec<u8>, is_srgb: bool) -> (r: Result<Option<Vec<u8>>, TextureError>)
    requires
        png_extent_fits(bytes@),
    ensures
        r matches Ok(Some(data)) ==> decoded_png(bytes@, is_srgb) == Some(Some(data@)),
        r matches Ok(None) ==> decoded_png(bytes@, is_srgb) == Some(None::<Seq<u8>>),
        r is Err ==> decoded_png(bytes@, is_srgb) is None,
{
    Image::from_buffer(
        bytes,
        ImageType::Extension("png"),
        CompressedImageFormats::NONE,
        is_srgb,
        ImageSampler::Default,
        RenderAssetUsages::default(),
    ).map(|image| image.data)
}

/// Reads the number that the four bytes from `at` on spell, highest byte
/// first.
fn read_be_u32(bytes: &Vec<u8>, at: usize) -> (n: u64)
    requires
        at + 4 <= bytes.len(),
    ensures
        n == be_u32(bytes@, at as int),
        n <= 0xffff_ffff,
{
    let b0: u64 = bytes[at] as u64;
    let b1: u64 = bytes[at + 1] as u64;
    let b2: u64 = bytes[at + 2] as u64;
    let b3: u64 = bytes[at + 3] as u64;
    b0 * 0x100_0000 + b1 * 0x1_0000 + b2 * 0x100 + b3
}

/// Tells whether the bytes begin as a PNG file does.
pub fn has_header(bytes: &Vec<u8>) -> (b: bool)
    ensures
        b == png_has_header(bytes@),
{
    bytes.len() >= PNG_EXTENT_END && bytes[0] == 137 && bytes[1] == 80 && bytes[2] == 78
        && bytes[3] == 71 && bytes[4] == 13 && bytes[5] == 10 && bytes[6] == 26 && bytes[7] == 10
        && bytes[12] == 73 && bytes[13] == 72 && bytes[14] == 68 && bytes[15] == 82
}

/// Tells whether the header of a PNG file declares no more pixels than the
/// decoder counts.
pub fn extent_fits(bytes: &Vec<u8>) -> (b: bool)
    ensures
        b == png_extent_fits(bytes@),
{
    if !has_header(bytes) {
        return true;
    }
    let width: u64 = read_be_u32(bytes, PNG_WIDTH_AT);
    let height: u64 = read_be_u32(bytes, PNG_HEIGHT_AT);
    assert(width * height <= 0xffff_ffff * 0xffff_ffff) by (nonlinear_arith)
        requires
            width <= 0xffff_ffff,
            height <= 0xffff_ffff,
    ;
    width * height <= PNG_MAX_PIXELS
}

/// The pixel data of a decoded image; the decoder's error is handed on, and
/// an image without pixel data is an error of its own.
pub fn image_data(decoded: Result<Option<Vec<u8>>, TextureError>) -> (r: Result<
    Vec<u8>,
    LoadError,
>)
    ensures
        decoded matches Ok(Some(data)) ==> r matches Ok(found) && found == data,
        decoded matches Ok(None) ==> r matches Err(LoadError::NoPixels),
        decoded matches Err(e) ==> r matches Err(LoadError::Texture(handed)) && handed == e,
{
    match decoded {
        Ok(Some(data)) => Ok(data),
        Ok(None) => Err(LoadError::NoPixels),
        Err(e) => Err(LoadError::Texture(e)),
    }
}

/// Decodes the bytes of a PNG file, read as sRGB, into its pixel data. A
/// file whose header declares more pixels than the decoder counts is
/// rejected without decoding.
pub fn read_png(bytes: &Vec<u8>) -> (r: Result<Vec<u8>, LoadError>)
    ensures
        !png_extent_fits(bytes@) ==> r matches Err(LoadError::Oversized),
        png_extent_fits(bytes@) ==> match png_image_data(bytes@) {
            None => r matches Err(LoadError::Texture(_)),
            Some(None) => r matches Err(LoadError::NoPixels),
            Some(Some(data)) => r matches Ok(found) && found@ == data,
        },
{
    if !extent_fits(bytes) {
        return Err(LoadError::Oversized);
    }
    image_data(decode_png(bytes, true))
}

/// Loads flat tiles.
#[derive(Default)]
pub struct TileLoader;

/// Loads block materials.
#[derive(Default)]
pub struct MaterialLoader;

/// Loads wrapping textures.
#[derive(Default)]
pub struct TextureLoader;

impl TileLoader {
    /// Loads a tile from the bytes of its PNG file and its metadata: the
    /// file is decoded, and the tile built from the pixel data as
    /// `Tile::from_image` builds it.
    pub fn load(&self, bytes: &Vec<u8>, settings: &TileMeta) -> (r: Result<Tile, LoadError>)
        ensures
            !png_extent_fits(bytes@) ==> r matches Err(LoadError::Oversized),
            png_extent_fits(bytes@) ==> match png_image_data(bytes@) {
                None => r matches Err(LoadError::Texture(_)),
                Some(None) => r matches Err(LoadError::NoPixels),
                Some(Some(data)) => decode_outcome(r) matches Some(built) && Tile::built_from(
                    built,
                    data,
                    *settings,
                ),
            },
    {
        let data = read_png(bytes)?;
        match Tile::from_image(&data, settings) {
            Ok(tile) => Ok(tile),
            Err(e) => Err(LoadError::Decode(e)),
        }
    }
}

impl MaterialLoader {
    /// Loads a block material from the bytes of its PNG file and its
    /// metadata: the file is decoded, and the material built from the pixel
    /// data as `Material::from_image` builds it.
    pub fn load(&self, bytes: &Vec<u8>, settings: &MaterialMeta) -> (r: Result<
        Material,
        LoadError,
    >)
        ensures
            !png_extent_fits(bytes@) ==> r matches Err(LoadError::Oversized),
            png_extent_fits(bytes@) ==> match png_image_data(bytes@) {
                None => r matches Err(LoadError::Texture(_)),
                Some(None) => r matches Err(LoadError::NoPixels),
                Some(Some(data)) => decode_outcome(r) matches Some(built)
                    && Material::built_from(built, data, *settings),
            },
    {
        let data = read_png(bytes)?;
        match Material::from_image(&data, settings) {
            Ok(material) => Ok(material),
            Err(e) => Err(LoadError::Decode(e)),
        }
    }
}

impl TextureLoader {
    /// Loads a wrapping texture from the bytes of its PNG file and its
    /// metadata: the file is decoded, and the texture built from the pixel
    /// data as `TileTexture::from_image` builds it.
    pub fn load(&self, bytes: &Vec<u8>, settings: &TextureMeta) -> (r: Result<
        TileTexture,
        LoadError,
    >)
        ensures
            !png_extent_fits(bytes@) ==> r matches Err(LoadError::Oversized),
            png_extent_fits(bytes@) ==> match png_image_data(bytes@) {
                None => r matches Err(LoadError::Texture(_)),
                Some(None) => r matches Err(LoadError::NoPixels),
                Some(Some(data)) => decode_outcome(r) matches Some(built)
                    && TileTexture::built_from(built, data, *settings),
            },
    {
        let data = read_png(bytes)?;
        match TileTexture::from_image(&data, settings) {
            Ok(texture) => Ok(texture),
            Err(e) => Err(LoadError::Decode(e)),
        }
    }
}

} // verus!
