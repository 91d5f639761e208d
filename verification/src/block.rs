//! The block material: four quadrants blended by neighbour occupancy.

use vstd::prelude::*;
use crate::error::DecodeError;
use crate::layer::{encoding_fault, pixels_of, well_encoded, TileLayer};
use crate::meta::MaterialMeta;
use crate::pixel::{TilePixel, HALF_TILE_SIZE, TILE_AREA, TILE_SIZE};
use crate::repeat::{compute_tile_layers, unroll};
use crate::subtile::{
    strip_index, variant_index, SubTile, BLOCK_ROWS, QUADRANT_AREA, QUADRANT_STRIP,
};

verus! {

/// Number of quadrants in a block.
pub const QUADRANTS: usize = 4;

/// Number of neighbour flags a block is drawn with.
pub const NEIGHBOR_COUNT: usize = 9;

/// Number of pixels in the atlas of a block: one strip per quadrant.
pub const ATLAS_AREA: usize = 2000;

/// The quadrant that a position of a tile lies in: 0 top left, 1 top right,
/// 2 bottom right, 3 bottom left.
pub open spec fn quadrant_of(rpos: int) -> int {
    let x = rpos % (TILE_SIZE as int);
    let y = rpos / (TILE_SIZE as int);
    if y < HALF_TILE_SIZE {
        if x < HALF_TILE_SIZE {
            0
        } else {
            1
        }
    } else {
        if x < HALF_TILE_SIZE {
            3
        } else {
            2
        }
    }
}

/// The position inside its quadrant of a position of a tile: its column
/// and its row, each counted from the quadrant's edge, read row by row.
pub open spec fn local_index(rpos: int) -> int {
    (rpos % (TILE_SIZE as int)) % (HALF_TILE_SIZE as int) + ((rpos / (TILE_SIZE as int)) % (
    HALF_TILE_SIZE as int)) * HALF_TILE_SIZE
}

/// The three neighbour flags that quadrant `quadrant` reads.
pub open spec fn window_of(neighbors: Seq<bool>, quadrant: int) -> Seq<bool> {
    neighbors.subrange(2 * quadrant, 2 * quadrant + 3)
}

/// The position in a block's atlas of pixel `local` of grid `variant` of
/// quadrant `quadrant`.
pub open spec fn atlas_index(quadrant: int, variant: int, local: int) -> int {
    quadrant * QUADRANT_STRIP + strip_index(variant, local)
}

/// A material whose look depends on which neighbouring cells are occupied.
#[derive(Debug, Clone)]
pub struct BlockMaterial {
    // 0: top left, 1: top right, 2: bottom right, 3: bottom left
    sub_tiles: Vec<SubTile>,
    computed_tile_layers: Vec<usize>,
}

/// The asset that holds one block material.
#[derive(Debug)]
pub struct Material {
    pub block: BlockMaterial,
}

impl BlockMaterial {
    /// The quadrants that the block holds.
    pub closed spec fn quadrants(&self) -> Seq<SubTile> {
        self.sub_tiles@
    }

    /// The quadrant held at index `q`.
    pub open spec fn sub_tile(&self, q: int) -> SubTile {
        self.quadrants()[q]
    }

    /// A block holds its four quadrants in order.
    pub open spec fn wf(&self) -> bool {
        &&& self.quadrants().len() == QUADRANTS
        &&& forall|q: int|
            0 <= q < QUADRANTS ==> (#[trigger] self.quadrants()[q]).wf()
                && self.quadrants()[q].quadrant() == q
    }

    /// The lookup table from logical slot to physical layer.
    pub closed spec fn table(&self) -> Seq<usize> {
        self.computed_tile_layers@
    }

    /// The physical layer that a logical slot resolves to, if the table
    /// holds the slot.
    pub open spec fn spec_layer_of(&self, sub_layer: usize) -> Option<usize> {
        if sub_layer < self.table().len() {
            Some(self.table()[sub_layer as int])
        } else {
            None
        }
    }

    /// The physical layer that a logical slot resolves to; `None` for a
    /// slot from the sum of the layer repeats on.
    #[verifier::when_used_as_spec(spec_layer_of)]
    pub fn layer_of(&self, sub_layer: usize) -> (r: Option<usize>)
        ensures
            r == self.layer_of(sub_layer),
    {
        if sub_layer < self.computed_tile_layers.len() {
            Some(self.computed_tile_layers[sub_layer])
        } else {
            None
        }
    }

    /// The grid that quadrant `q` holds for adjacency state `v`.
    pub open spec fn grid(&self, q: int, v: int) -> Seq<TilePixel> {
        self.sub_tile(q).variant(v)
    }

    /// The pixel drawn for a logical slot at a position of the tile, given
    /// the occupancy of the neighbours: `Neutral` for a slot that the table
    /// does not hold, else the pixel of the grid that the position's
    /// quadrant selects.
    pub open spec fn pixel_at(&self, sub_layer: int, rpos: int, neighbors: Seq<bool>) -> TilePixel {
        if sub_layer >= self.table().len() {
            TilePixel::Neutral
        } else {
            let q = quadrant_of(rpos);
            self.grid(q, variant_index(q, window_of(neighbors, q)))[local_index(rpos)]
        }
    }

    /// Makes a block from its four quadrants in order and its layer
    /// repeats, if there are four and each sits at its own index.
    pub fn new(sub_tiles: Vec<SubTile>, layer_repeats: &Vec<usize>) -> (r: Option<BlockMaterial>)
        requires
            forall|q: int| 0 <= q < sub_tiles@.len() ==> (#[trigger] sub_tiles@[q]).wf(),
        ensures
            r is Some <==> {
                &&& sub_tiles@.len() == QUADRANTS
                &&& forall|q: int| 0 <= q < QUADRANTS ==> (#[trigger] sub_tiles@[q]).quadrant() == q
            },
            r matches Some(b) ==> {
                &&& b.wf()
                &&& b.table() == unroll(layer_repeats@)
                &&& b.quadrants() == sub_tiles@
            },
    {
        if sub_tiles.len() != QUADRANTS {
            return None;
        }
        let mut q: usize = 0;
        while q < QUADRANTS
            invariant
                q <= QUADRANTS,
                sub_tiles@.len() == QUADRANTS,
                forall|j: int| 0 <= j < q ==> (#[trigger] sub_tiles@[j]).quadrant() == j,
            decreases QUADRANTS - q,
        {
            if sub_tiles[q].quadrant() != q {
                return None;
            }
            q += 1;
        }
        Some(BlockMaterial { sub_tiles, computed_tile_layers: compute_tile_layers(layer_repeats) })
    }

    /// The pixel at position `rpos` of the tile for logical slot
    /// `sub_layer`, with `neighbors` telling which surrounding cells are
    /// occupied. A slot beyond the table gives `Neutral` whatever the
    /// position and the neighbours.
    pub fn get_pixel(&self, sub_layer: usize, rpos: usize, neighbors: &[bool]) -> (p: TilePixel)
        requires
            self.wf(),
            sub_layer < self.table().len() ==> rpos < TILE_AREA && neighbors@.len()
                == NEIGHBOR_COUNT,
        ensures
            p == self.pixel_at(sub_layer as int, rpos as int, neighbors@),
            sub_layer >= self.table().len() ==> p == TilePixel::Neutral,
    {
        let Some(_tile_layer) = self.layer_of(sub_layer) else {
            return TilePixel::Neutral;
        };
        let x: usize = rpos % TILE_SIZE;
        let y: usize = rpos / TILE_SIZE;
        let quadrant: usize = if y < HALF_TILE_SIZE {
            if x < HALF_TILE_SIZE {
                0
            } else {
                1
            }
        } else {
            if x < HALF_TILE_SIZE {
                3
            } else {
                2
            }
        };
        let x: usize = if x >= HALF_TILE_SIZE {
            x - HALF_TILE_SIZE
        } else {
            x
        };
        let y: usize = if y >= HALF_TILE_SIZE {
            y - HALF_TILE_SIZE
        } else {
            y
        };
        let idx: usize = x + y * HALF_TILE_SIZE;
        let sub_tile = &self.sub_tiles[quadrant];
        let layer = sub_tile.get(&neighbors[quadrant * 2..quadrant * 2 + 3]);
        layer.colors[idx]
    }
}

/// The error that the bytes of a block's atlas are rejected with, when they
/// are rejected.
pub open spec fn material_fault(data: Seq<u8>) -> DecodeError {
    if !well_encoded(data) {
        encoding_fault(data)
    } else if (data.len() / 4) % (QUADRANT_STRIP as nat) != 0 {
        DecodeError::PartialChunk
    } else {
        DecodeError::WrongExtent
    }
}

impl Material {
    /// `r` is what the pixel data `data` and the metadata `settings` make:
    /// a material exactly when `data` is a well-encoded atlas of the right
    /// size, whose block then holds each grid as the atlas lays it out, and
    /// the unrolled layer repeats; else the error that says what is wrong.
    pub open spec fn built_from(
        r: Result<Material, DecodeError>,
        data: Seq<u8>,
        settings: MaterialMeta,
    ) -> bool {
        &&& r is Ok <==> well_encoded(data) && data.len() == 4 * ATLAS_AREA
        &&& r matches Err(e) ==> e == material_fault(data)
        &&& r matches Ok(m) ==> {
            &&& m.block.wf()
            &&& m.block.table() == unroll(settings.layer_repeats@)
            &&& forall|q: int, v: int, l: int|
                0 <= q < QUADRANTS && 0 <= v < BLOCK_ROWS && 0 <= l < QUADRANT_AREA ==> (
                #[trigger] m.block.grid(q, v)[l]) == pixels_of(data)[atlas_index(q, v, l)]
        }
    }

    /// Builds a block material from the RGBA bytes of its atlas and its
    /// metadata.
    ///
    /// The atlas is fifty pixels wide and forty high: one strip of ten rows
    /// per quadrant, in quadrant order, and in each strip the five grids of
    /// the quadrant side by side, in adjacency order.
    pub fn from_image(data: &Vec<u8>, settings: &MaterialMeta) -> (r: Result<Material, DecodeError>)
        ensures
            Material::built_from(r, data@, *settings),
    {
        let pixels = match TileLayer::from(data) {
            Ok(layer) => layer.colors,
            Err(e) => {
                return Err(e);
            },
        };
        if pixels.len() % QUADRANT_STRIP != 0 {
            return Err(DecodeError::PartialChunk);
        }
        if pixels.len() != ATLAS_AREA {
            return Err(DecodeError::WrongExtent);
        }
        let mut sub_tiles: Vec<SubTile> = Vec::new();
        let mut quadrant: usize = 0;
        while quadrant < QUADRANTS
            invariant
                quadrant <= QUADRANTS,
                pixels@.len() == ATLAS_AREA,
                sub_tiles@.len() == quadrant,
                forall|q: int|
                    0 <= q < quadrant ==> {
                        &&& (#[trigger] sub_tiles@[q]).wf()
                        &&& sub_tiles@[q].quadrant() == q
                        &&& forall|v: int, l: int|
                            0 <= v < BLOCK_ROWS && 0 <= l < QUADRANT_AREA ==> (
                            #[trigger] sub_tiles@[q].variant(v)[l]) == pixels@[atlas_index(q, v, l)]
                    },
            decreases QUADRANTS - quadrant,
        {
            let start: usize = quadrant * QUADRANT_STRIP;
            let row = &pixels.as_slice()[start..start + QUADRANT_STRIP];
            let sub_tile = match SubTile::from_strip(quadrant, row) {
                Some(s) => s,
                None => {
                    return Err(DecodeError::WrongExtent);
                },
            };
            sub_tiles.push(sub_tile);
            quadrant += 1;
        }
        match BlockMaterial::new(sub_tiles, &settings.layer_repeats) {
            Some(block) => Ok(Material { block }),
            None => Err(DecodeError::WrongExtent),
        }
    }
}

} // verus!
