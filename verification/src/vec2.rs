//! A pair of unsigned coordinates.

use vstd::prelude::*;

verus! {

/// A position in a grid of pixels, or the extent of a grid in tiles.
#[derive(Clone, Copy, Debug, PartialEq, Eq, Structural)]
pub struct UVec2 {
    pub x: u32,
    pub y: u32,
}

impl Default for UVec2 {
    fn default() -> (v: UVec2)
        ensures
            v.x == 0,
            v.y == 0,
    {
        UVec2 { x: 0, y: 0 }
    }
}

impl UVec2 {
    /// The pair `(x, y)`.
    pub fn new(x: u32, y: u32) -> (v: UVec2)
        ensures
            v.x == x,
            v.y == y,
    {
        UVec2 { x, y }
    }
}

} // verus!
