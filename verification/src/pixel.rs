//! The four categorical pixel values and their RGBA encoding.

use vstd::prelude::*;

verus! {

/// Edge length of a full tile, in pixels.
pub const TILE_SIZE: usize = 20;

/// Edge length of one quadrant of a tile, in pixels.
pub const HALF_TILE_SIZE: usize = 10;

/// Number of pixels in a full tile.
pub const TILE_AREA: usize = 400;

/// Number of bytes that encode one pixel.
pub const PIXEL_SIZE: usize = 4;

/// Height class of one pixel of a tile, or its absence.
#[derive(Clone, Copy, Debug, PartialEq, Eq, Structural)]
pub enum TilePixel {
    Up,
    Neutral,
    Down,
    /// Transparent: no pixel at all.
    Absent,
}

impl Default for TilePixel {
    fn default() -> (p: TilePixel)
        ensures
            p == TilePixel::Up,
    {
        TilePixel::Up
    }
}

/// The pixel that an RGBA quadruple encodes, if it encodes one.
pub open spec fn pixel_of_rgba(r: u8, g: u8, b: u8, a: u8) -> Option<TilePixel> {
    if r == 0 && g == 0 && b == 0 && a == 0 {
        Some(TilePixel::Absent)
    } else if r == 0 && g == 0 && b == 255 && a == 255 {
        Some(TilePixel::Up)
    } else if r == 0 && g == 255 && b == 0 && a == 255 {
        Some(TilePixel::Neutral)
    } else if r == 255 && g == 0 && b == 0 && a == 255 {
        Some(TilePixel::Down)
    } else {
        None
    }
}

/// Classifies one RGBA quadruple; `None` for a quadruple outside the table.
pub fn classify(r: u8, g: u8, b: u8, a: u8) -> (p: Option<TilePixel>)
    ensures
        p == pixel_of_rgba(r, g, b, a),
{
    if r == 0 && g == 0 && b == 0 && a == 0 {
        Some(TilePixel::Absent)
    } else if r == 0 && g == 0 && b == 255 && a == 255 {
        Some(TilePixel::Up)
    } else if r == 0 && g == 255 && b == 0 && a == 255 {
        Some(TilePixel::Neutral)
    } else if r == 255 && g == 0 && b == 0 && a == 255 {
        Some(TilePixel::Down)
    } else {
        None
    }
}

} // verus!
