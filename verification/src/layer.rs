//! A row-major grid of categorical pixels, and its decoding from RGBA bytes.

use vstd::prelude::*;
use crate::error::DecodeError;
use crate::pixel::{classify, pixel_of_rgba, TilePixel, PIXEL_SIZE};

verus! {

/// An ordered sequence of pixels, read as a row-major grid whose width the
/// owner knows.
#[derive(Debug, Clone)]
pub struct TileLayer {
    pub colors: Vec<TilePixel>,
}

impl View for TileLayer {
    type V = Seq<TilePixel>;

    open spec fn view(&self) -> Seq<TilePixel> {
        self.colors@
    }
}

/// The pixel encoded by the `i`-th quadruple of `bytes`, if it encodes one.
pub open spec fn quad_at(bytes: Seq<u8>, i: int) -> Option<TilePixel> {
    pixel_of_rgba(bytes[4 * i], bytes[4 * i + 1], bytes[4 * i + 2], bytes[4 * i + 3])
}

/// `bytes` is a whole number of quadruples, each of which encodes a pixel.
pub open spec fn well_encoded(bytes: Seq<u8>) -> bool {
    &&& bytes.len() % 4 == 0
    &&& forall|i: int| 0 <= i < bytes.len() / 4 ==> (#[trigger] quad_at(bytes, i)) is Some
}

/// The pixels that a well-encoded buffer holds, in the buffer's order.
pub open spec fn pixels_of(bytes: Seq<u8>) -> Seq<TilePixel> {
    Seq::new(bytes.len() / 4, |i: int| quad_at(bytes, i).unwrap())
}

/// The error that a buffer which is not well encoded is rejected with.
pub open spec fn encoding_fault(bytes: Seq<u8>) -> DecodeError {
    if bytes.len() % 4 != 0 {
        DecodeError::PartialChunk
    } else {
        DecodeError::UnrecognizedPixel
    }
}

/// What decoding `bytes` yields: the pixels, or the reason there are none.
pub open spec fn decode_pixels(bytes: Seq<u8>) -> Result<Seq<TilePixel>, DecodeError> {
    if well_encoded(bytes) {
        Ok(pixels_of(bytes))
    } else {
        Err(encoding_fault(bytes))
    }
}

impl TileLayer {
    /// Decodes a buffer of RGBA quadruples into one pixel per quadruple.
    ///
    /// A buffer with a trailing partial quadruple, or with a quadruple outside
    /// the encoding table, is rejected; nothing is guessed.
    pub fn from(value: &Vec<u8>) -> (r: Result<TileLayer, DecodeError>)
        ensures
            r is Ok <==> well_encoded(value@),
            r matches Ok(layer) ==> layer@ == pixels_of(value@),
            r matches Err(e) ==> e == encoding_fault(value@),
    {
        if value.len() % PIXEL_SIZE != 0 {
            return Err(DecodeError::PartialChunk);
        }
        let count: usize = value.len() / PIXEL_SIZE;
        let mut colors: Vec<TilePixel> = Vec::new();
        let mut i: usize = 0;
        while i < count
            invariant
                value.len() == 4 * count,
                i <= count,
                colors.len() == i,
                forall|j: int| 0 <= j < i ==> quad_at(value@, j) == Some(#[trigger] colors[j]),
            decreases count - i,
        {
            let base: usize = i * PIXEL_SIZE;
            match classify(value[base], value[base + 1], value[base + 2], value[base + 3]) {
                Some(p) => {
                    colors.push(p);
                },
                None => {
                    assert(quad_at(value@, i as int) is None);
                    return Err(DecodeError::UnrecognizedPixel);
                },
            }
            i += 1;
        }
        assert forall|j: int| 0 <= j < count implies (#[trigger] quad_at(value@, j)) is Some by {
            assert(quad_at(value@, j) == Some(colors[j]));
        }
        assert(colors@ =~= pixels_of(value@));
        Ok(TileLayer { colors })
    }
}

} // verus!
