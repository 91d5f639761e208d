//! The metadata record that accompanies each kind of asset.

use vstd::prelude::*;
use crate::vec2::UVec2;

verus! {

/// Metadata of a flat tile: its extent in cells and its layer repeats.
#[derive(Debug, Clone)]
pub struct TileMeta {
    pub name: String,
    pub size: UVec2,
    pub layer_repeats: Vec<usize>,
}

/// Metadata of a wrapping texture: its extent in tiles and the layers it
/// was made from.
#[derive(Debug, Clone)]
pub struct TextureMeta {
    pub name: String,
    pub size: UVec2,
    pub layers: Vec<usize>,
}

/// Metadata of a block material: its layer repeats.
#[derive(Debug, Clone)]
pub struct MaterialMeta {
    pub name: String,
    pub layer_repeats: Vec<usize>,
}

impl Default for TileMeta {
    fn default() -> (m: TileMeta)
        ensures
            m.name@.len() == 0,
            m.size == (UVec2 { x: 0, y: 0 }),
            m.layer_repeats@.len() == 0,
    {
        TileMeta { name: String::new(), size: UVec2::new(0, 0), layer_repeats: Vec::new() }
    }
}

impl Default for TextureMeta {
    fn default() -> (m: TextureMeta)
        ensures
            m.name@.len() == 0,
            m.size == (UVec2 { x: 0, y: 0 }),
            m.layers@.len() == 0,
    {
        TextureMeta { name: String::new(), size: UVec2::new(0, 0), layers: Vec::new() }
    }
}

impl Default for MaterialMeta {
    fn default() -> (m: MaterialMeta)
        ensures
            m.name@.len() == 0,
            m.layer_repeats@.len() == 0,
    {
        MaterialMeta { name: String::new(), layer_repeats: Vec::new() }
    }
}

} // verus!
