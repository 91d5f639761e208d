//! The flat tile: whole-tile layers, picked by logical slot alone.

use vstd::prelude::*;
use vstd::slice::{slice_subrange, slice_to_vec};
use crate::error::DecodeError;
use crate::layer::{encoding_fault, pixels_of, well_encoded, TileLayer};
use crate::meta::TileMeta;
use crate::pixel::{TilePixel, TILE_AREA};
use crate::repeat::{compute_tile_layers, unroll};
use crate::vec2::UVec2;

verus! {

/// A tile drawn from one of its layers, whatever its neighbours.
#[derive(Debug)]
pub struct Tile {
    /// The layers, in physical order.
    pub layers: Vec<TileLayer>,
    /// The lookup table from logical slot to physical layer.
    pub computed_tile_layers: Vec<usize>,
    /// The extent in cells. No lookup reads it.
    pub size: UVec2,
}

/// Number of pixels in one layer of a tile that spans `size` cells.
pub open spec fn layer_area(size: UVec2) -> int {
    TILE_AREA * (size.x * size.y)
}

/// The `i`-th of the layers of `area` pixels each that `pixels` holds one
/// after the other.
pub open spec fn layer_chunk(pixels: Seq<TilePixel>, area: int, i: int) -> Seq<TilePixel> {
    pixels.subrange(i * area, (i + 1) * area)
}

/// Every slot of `table` resolves to one of `count` layers.
pub open spec fn table_within(table: Seq<usize>, count: int) -> bool {
    forall|slot: int| 0 <= slot < table.len() ==> #[trigger] table[slot] < count
}

/// The bytes and metadata of a tile are accepted: the bytes are well
/// encoded, the tile has cells, and the pixels fill a whole number of
/// layers.
pub open spec fn tile_accepted(data: Seq<u8>, settings: TileMeta) -> bool {
    &&& well_encoded(data)
    &&& layer_area(settings.size) > 0
    &&& (data.len() / 4) as int % layer_area(settings.size) == 0
}

/// The error that the bytes and metadata of a tile are rejected with, when
/// they are rejected.
pub open spec fn tile_fault(data: Seq<u8>, settings: TileMeta) -> DecodeError {
    if !well_encoded(data) {
        encoding_fault(data)
    } else if layer_area(settings.size) == 0 {
        DecodeError::EmptyGrid
    } else {
        DecodeError::PartialChunk
    }
}

impl Tile {
    /// The lookup table from logical slot to physical layer.
    pub open spec fn table(&self) -> Seq<usize> {
        self.computed_tile_layers@
    }

    /// The layers that the tile holds, in physical order.
    pub open spec fn grids(&self) -> Seq<TileLayer> {
        self.layers@
    }

    /// The extent of the tile in cells.
    pub open spec fn spec_size(&self) -> UVec2 {
        self.size
    }

    /// The extent of the tile in cells. No lookup reads it.
    #[verifier::when_used_as_spec(spec_size)]
    pub fn size(&self) -> (s: UVec2)
        ensures
            s == self.size(),
    {
        self.size
    }

    /// The physical layer that a logical slot resolves to, if the table
    /// holds the slot.
    pub open spec fn spec_layer_of(&self, sub_layer: usize) -> Option<usize> {
        if sub_layer < self.table().len() {
            Some(self.table()[sub_layer as int])
        } else {
            None
        }
    }

    /// The physical layer that a logical slot resolves to; `None` for a
    /// slot from the sum of the layer repeats on.
    #[verifier::when_used_as_spec(spec_layer_of)]
    pub fn layer_of(&self, sub_layer: usize) -> (r: Option<usize>)
        ensures
            r == self.layer_of(sub_layer),
    {
        if sub_layer < self.computed_tile_layers.len() {
            Some(self.computed_tile_layers[sub_layer])
        } else {
            None
        }
    }

    /// Every logical slot resolves to a layer that the tile holds.
    pub open spec fn wf(&self) -> bool {
        table_within(self.table(), self.grids().len() as int)
    }

    /// Tells whether every logical slot resolves to a layer that the tile
    /// holds.
    pub fn is_wf(&self) -> (b: bool)
        ensures
            b == self.wf(),
    {
        let mut slot: usize = 0;
        while slot < self.computed_tile_layers.len()
            invariant
                slot <= self.computed_tile_layers@.len(),
                forall|j: int|
                    0 <= j < slot ==> #[trigger] self.computed_tile_layers@[j] < self.layers@.len(),
            decreases self.computed_tile_layers.len() - slot,
        {
            if self.computed_tile_layers[slot] >= self.layers.len() {
                return false;
            }
            slot += 1;
        }
        true
    }

    /// Position `rpos` of logical slot `sub_layer` can be drawn: the slot
    /// resolves to a layer that the tile holds, and the position lies in
    /// that layer.
    pub open spec fn drawable(&self, sub_layer: int, rpos: int) -> bool {
        &&& self.table()[sub_layer] < self.grids().len()
        &&& rpos < self.grids()[self.table()[sub_layer] as int]@.len()
    }

    /// The pixel drawn for a logical slot at a position: `Neutral` for a
    /// slot that the table does not hold, else the pixel at that position of
    /// the layer that the slot resolves to.
    pub open spec fn pixel_at(&self, sub_layer: int, rpos: int) -> TilePixel {
        if sub_layer >= self.table().len() {
            TilePixel::Neutral
        } else {
            self.grids()[self.table()[sub_layer] as int]@[rpos]
        }
    }

    /// `r` is what the pixel data `data` and the metadata `settings` make:
    /// a tile exactly when they are accepted, which then holds the layers
    /// that `data` holds one after the other, the unrolled layer repeats,
    /// whatever layers they name, and the extent; else the error that says
    /// what is wrong.
    pub open spec fn built_from(
        r: Result<Tile, DecodeError>,
        data: Seq<u8>,
        settings: TileMeta,
    ) -> bool {
        &&& r is Ok <==> tile_accepted(data, settings)
        &&& r matches Err(e) ==> e == tile_fault(data, settings)
        &&& r matches Ok(t) ==> {
            &&& t.table() == unroll(settings.layer_repeats@)
            &&& t.size() == settings.size
            &&& t.grids().len() == (data.len() / 4) as int / layer_area(settings.size)
            &&& forall|i: int|
                0 <= i < t.grids().len() ==> {
                    &&& (#[trigger] t.grids()[i])@ == layer_chunk(
                        pixels_of(data),
                        layer_area(settings.size),
                        i,
                    )
                    &&& t.grids()[i]@.len() == layer_area(settings.size)
                }
        }
    }

    /// Makes a tile from its layers, its layer repeats and its extent. The
    /// repeats may name layers that are not there: such a slot cannot be
    /// drawn, the others can.
    pub fn new(layers: Vec<TileLayer>, layer_repeats: &Vec<usize>, size: UVec2) -> (t: Tile)
        ensures
            t.layers == layers,
            t.table() == unroll(layer_repeats@),
            t.size() == size,
    {
        Tile { layers, computed_tile_layers: compute_tile_layers(layer_repeats), size }
    }

    /// The pixel at position `rpos` of the layer that logical slot
    /// `sub_layer` resolves to. A slot beyond the table gives `Neutral`
    /// whatever the position.
    pub fn get_pixel(&self, sub_layer: usize, rpos: usize) -> (p: TilePixel)
        requires
            sub_layer < self.table().len() ==> self.drawable(sub_layer as int, rpos as int),
        ensures
            p == self.pixel_at(sub_layer as int, rpos as int),
            sub_layer >= self.table().len() ==> p == TilePixel::Neutral,
    {
        match self.layer_of(sub_layer) {
            Some(tile_layer) => self.layers[tile_layer].colors[rpos],
            None => TilePixel::Neutral,
        }
    }

    /// Builds a tile from the RGBA bytes of its image and its metadata.
    ///
    /// The image holds the layers one after the other, each as many pixels
    /// as the tile's cells have together.
    pub fn from_image(data: &Vec<u8>, settings: &TileMeta) -> (r: Result<Tile, DecodeError>)
        ensures
            Tile::built_from(r, data@, *settings),
    {
        let pixels = match TileLayer::from(data) {
            Ok(layer) => layer.colors,
            Err(e) => {
                return Err(e);
            },
        };
        let ghost area = layer_area(settings.size);
        assert(settings.size.x * settings.size.y <= 0xffff_ffff * 0xffff_ffff) by (nonlinear_arith)
            requires
                settings.size.x <= 0xffff_ffff,
                settings.size.y <= 0xffff_ffff,
        ;
        let cells: u64 = settings.size.x as u64 * settings.size.y as u64;
        if cells == 0 {
            return Err(DecodeError::EmptyGrid);
        }
        let layer_len: u128 = cells as u128 * TILE_AREA as u128;
        let mut layers: Vec<TileLayer> = Vec::new();
        if layer_len > pixels.len() as u128 {
            if pixels.len() != 0 {
                assert(pixels@.len() as int % area != 0) by {
                    vstd::arithmetic::div_mod::lemma_small_mod(pixels@.len(), area as nat);
                }
                return Err(DecodeError::PartialChunk);
            }
            assert(0int / area == 0) by (nonlinear_arith)
                requires
                    area > 0,
            ;
        } else {
            let chunk: usize = layer_len as usize;
            if pixels.len() % chunk != 0 {
                return Err(DecodeError::PartialChunk);
            }
            let count: usize = pixels.len() / chunk;
            assert(count * chunk == pixels@.len()) by {
                vstd::arithmetic::div_mod::lemma_fundamental_div_mod(
                    pixels@.len() as int,
                    chunk as int,
                );
                assert(chunk * count == count * chunk) by (nonlinear_arith);
            }
            let mut i: usize = 0;
            let mut start: usize = 0;
            while i < count
                invariant
                    i <= count,
                    chunk > 0,
                    chunk == area,
                    count * chunk == pixels.len(),
                    start == i * chunk,
                    layers@.len() == i,
                    forall|j: int|
                        0 <= j < i ==> (#[trigger] layers@[j])@ == layer_chunk(pixels@, area, j)
                            && layers@[j]@.len() == area,
                decreases count - i,
            {
                assert((i + 1) * chunk == i * chunk + chunk) by (nonlinear_arith);
                assert((i + 1) * chunk <= count * chunk) by (nonlinear_arith)
                    requires
                        i + 1 <= count,
                        chunk >= 0,
                ;
                let part = slice_subrange(pixels.as_slice(), start, start + chunk);
                layers.push(TileLayer { colors: slice_to_vec(part) });
                start += chunk;
                i += 1;
            }
        }
        Ok(Tile::new(layers, &settings.layer_repeats, settings.size))
    }
}

} // verus!
