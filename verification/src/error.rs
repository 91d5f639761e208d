//! Why an image, its metadata or its file is rejected.

use vstd::prelude::*;
use bevy::image::TextureError;

verus! {

/// The error of bevy's image decoder, `bevy::image::TextureError`. Nothing
/// is known of a value of it.
#[verifier::external_type_specification]
#[verifier::external_body]
pub struct ExTextureError(TextureError);

/// The reason an asset could not be built from pixel data and metadata.
#[derive(Clone, Copy, Debug, PartialEq, Eq, Structural)]
pub enum DecodeError {
    /// The buffer does not hold a whole number of the units it is read in.
    PartialChunk,
    /// A quadruple of bytes encodes none of the four pixel values.
    UnrecognizedPixel,
    /// The metadata describes a grid without cells.
    EmptyGrid,
    /// The image holds another number of pixels than its layout calls for.
    WrongExtent,
}

/// The reason an asset could not be loaded from the bytes of its file.
#[derive(Debug)]
pub enum LoadError {
    /// The file's header declares more pixels than the decoder counts.
    Oversized,
    /// The decoder refused the bytes; its own error says why.
    Texture(TextureError),
    /// The decoder gave an image that carries no pixel data.
    NoPixels,
    /// The decoded pixels or the metadata are rejected.
    Decode(DecodeError),
}

/// What a load came to once the file was decoded: the asset or the reason
/// its pixels were rejected; `None` for a load that failed before that.
pub open spec fn decode_outcome<T>(r: Result<T, LoadError>) -> Option<Result<T, DecodeError>> {
    match r {
        Ok(asset) => Some(Ok(asset)),
        Err(LoadError::Decode(e)) => Some(Err(e)),
        Err(_) => None,
    }
}

} // verus!
