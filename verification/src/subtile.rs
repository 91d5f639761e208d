//! One quadrant of a block: five pre-sliced grids and the rule that picks
//! one of them from the occupancy of the neighbouring cells.

use vstd::prelude::*;
use crate::layer::TileLayer;
use crate::pixel::{TilePixel, HALF_TILE_SIZE};

verus! {

/// Number of grids a quadrant holds, one per adjacency state.
pub const BLOCK_ROWS: usize = 5;

/// Number of pixels in one quadrant's grid.
pub const QUADRANT_AREA: usize = 100;

/// Width in pixels of the strip that holds a quadrant's grids side by side.
pub const STRIP_WIDTH: usize = 50;

/// Number of pixels in the strip that holds a quadrant's grids.
pub const QUADRANT_STRIP: usize = 500;

/// The position in a quadrant's strip of pixel `local` of grid `variant`.
pub open spec fn strip_index(variant: int, local: int) -> int {
    variant * HALF_TILE_SIZE + local % (HALF_TILE_SIZE as int) + (local / (HALF_TILE_SIZE as int))
        * STRIP_WIDTH
}

/// The window position that tells whether the horizontal neighbour of a
/// quadrant is occupied.
pub open spec fn horizontal_slot(quadrant: int) -> int {
    2 * (quadrant % 2)
}

/// The window position that tells whether the vertical neighbour of a
/// quadrant is occupied.
pub open spec fn vertical_slot(quadrant: int) -> int {
    2 * (1 - quadrant % 2)
}

/// The grid selected by the three neighbour signals.
pub open spec fn variant_of_signals(horizontal: bool, vertical: bool, diagonal: bool) -> int {
    if horizontal && vertical {
        if diagonal {
            4
        } else {
            3
        }
    } else if horizontal {
        2
    } else if vertical {
        1
    } else {
        0
    }
}

/// The grid that a quadrant selects for a window of three neighbours.
pub open spec fn variant_index(quadrant: int, window: Seq<bool>) -> int {
    variant_of_signals(
        window[horizontal_slot(quadrant)],
        window[vertical_slot(quadrant)],
        window[1],
    )
}

/// The selection follows the table row by row: all three neighbours give the
/// last grid, both cardinal ones without the diagonal the one before, a lone
/// horizontal or vertical neighbour its own grid whatever the diagonal, and
/// no cardinal neighbour the first grid.
pub proof fn lemma_variant_table(horizontal: bool, vertical: bool, diagonal: bool)
    ensures
        0 <= variant_of_signals(horizontal, vertical, diagonal) < BLOCK_ROWS,
        horizontal && vertical && diagonal ==> variant_of_signals(horizontal, vertical, diagonal)
            == 4,
        horizontal && vertical && !diagonal ==> variant_of_signals(horizontal, vertical, diagonal)
            == 3,
        horizontal && !vertical ==> variant_of_signals(horizontal, vertical, diagonal) == 2,
        !horizontal && vertical ==> variant_of_signals(horizontal, vertical, diagonal) == 1,
        !horizontal && !vertical ==> variant_of_signals(horizontal, vertical, diagonal) == 0,
{
}

/// A diagonal neighbour alone selects the same grid as no neighbour at all.
pub proof fn lemma_diagonal_alone_is_no_neighbour()
    ensures
        variant_of_signals(false, false, true) == variant_of_signals(false, false, false) == 0,
{
}

/// Two windows that agree on a quadrant's three signals select the same
/// grid; even quadrants read the horizontal signal first and the vertical
/// one last, odd quadrants the other way round.
pub proof fn lemma_variant_depends_on_signals(quadrant: int, a: Seq<bool>, b: Seq<bool>)
    requires
        0 <= quadrant < 4,
        a.len() == 3,
        b.len() == 3,
        a[horizontal_slot(quadrant)] == b[horizontal_slot(quadrant)],
        a[vertical_slot(quadrant)] == b[vertical_slot(quadrant)],
        a[1] == b[1],
    ensures
        variant_index(quadrant, a) == variant_index(quadrant, b),
        quadrant % 2 == 0 ==> horizontal_slot(quadrant) == 0 && vertical_slot(quadrant) == 2,
        quadrant % 2 == 1 ==> horizontal_slot(quadrant) == 2 && vertical_slot(quadrant) == 0,
{
}

/// The five grids of one quadrant of a block.
#[derive(Debug, Clone)]
pub struct SubTile {
    quadrant: usize,
    data: Vec<TileLayer>,
}

impl SubTile {
    /// Which quadrant of the block this is: 0 top left, 1 top right,
    /// 2 bottom right, 3 bottom left.
    pub closed spec fn spec_quadrant(&self) -> usize {
        self.quadrant
    }

    /// Which quadrant of the block this is.
    #[verifier::when_used_as_spec(spec_quadrant)]
    pub fn quadrant(&self) -> (q: usize)
        ensures
            q == self.quadrant(),
    {
        self.quadrant
    }

    /// The grids that the quadrant holds, in adjacency order.
    pub closed spec fn variants(&self) -> Seq<Seq<TilePixel>> {
        Seq::new(self.data@.len(), |i: int| self.data@[i]@)
    }

    /// The grid held for adjacency state `i`.
    pub open spec fn variant(&self, i: int) -> Seq<TilePixel> {
        self.variants()[i]
    }

    /// A quadrant is one of the four, and holds five grids of a quadrant's
    /// area each.
    pub open spec fn wf(&self) -> bool {
        &&& self.quadrant() < 4
        &&& self.variants().len() == BLOCK_ROWS
        &&& forall|i: int|
            0 <= i < BLOCK_ROWS ==> (#[trigger] self.variants()[i]).len() == QUADRANT_AREA
    }

    /// Makes a quadrant from its index and its grids in adjacency order, if
    /// the index is one of the four and there are five grids of a quadrant's
    /// area each.
    pub fn new(quadrant: usize, data: Vec<TileLayer>) -> (r: Option<SubTile>)
        ensures
            r is Some <==> {
                &&& quadrant < 4
                &&& data@.len() == BLOCK_ROWS
                &&& forall|i: int|
                    0 <= i < BLOCK_ROWS ==> (#[trigger] data@[i])@.len() == QUADRANT_AREA
            },
            r matches Some(s) ==> {
                &&& s.wf()
                &&& s.quadrant() == quadrant
                &&& forall|i: int| 0 <= i < BLOCK_ROWS ==> #[trigger] s.variant(i) == data@[i]@
            },
    {
        if quadrant >= 4 || data.len() != BLOCK_ROWS {
            return None;
        }
        let mut i: usize = 0;
        while i < BLOCK_ROWS
            invariant
                i <= BLOCK_ROWS,
                data@.len() == BLOCK_ROWS,
                forall|j: int| 0 <= j < i ==> (#[trigger] data@[j])@.len() == QUADRANT_AREA,
            decreases BLOCK_ROWS - i,
        {
            if data[i].colors.len() != QUADRANT_AREA {
                return None;
            }
            i += 1;
        }
        Some(SubTile { quadrant, data })
    }

    /// Cuts the five grids of a quadrant out of its strip, in which they
    /// lie side by side; `None` unless the index is one of the four and the
    /// strip has a strip's length.
    pub fn from_strip(quadrant: usize, row: &[TilePixel]) -> (r: Option<SubTile>)
        ensures
            r is Some <==> quadrant < 4 && row@.len() == QUADRANT_STRIP,
            r matches Some(s) ==> {
                &&& s.wf()
                &&& s.quadrant() == quadrant
                &&& forall|v: int, l: int|
                    0 <= v < BLOCK_ROWS && 0 <= l < QUADRANT_AREA ==> (#[trigger] s.variant(v)[l])
                        == row@[strip_index(v, l)]
            },
    {
        if quadrant >= 4 || row.len() != QUADRANT_STRIP {
            return None;
        }
        let mut data: Vec<TileLayer> = Vec::new();
        let mut r: usize = 0;
        while r < BLOCK_ROWS
            invariant
                r <= BLOCK_ROWS,
                row@.len() == QUADRANT_STRIP,
                data@.len() == r,
                forall|v: int|
                    0 <= v < r ==> {
                        &&& (#[trigger] data@[v])@.len() == QUADRANT_AREA
                        &&& forall|l: int|
                            0 <= l < QUADRANT_AREA ==> (#[trigger] data@[v]@[l])
                                == row@[strip_index(v, l)]
                    },
            decreases BLOCK_ROWS - r,
        {
            let start: usize = r * HALF_TILE_SIZE;
            let mut colors: Vec<TilePixel> = Vec::new();
            let mut vy: usize = 0;
            while vy < HALF_TILE_SIZE
                invariant
                    r < BLOCK_ROWS,
                    start == r * HALF_TILE_SIZE,
                    vy <= HALF_TILE_SIZE,
                    row@.len() == QUADRANT_STRIP,
                    colors@.len() == vy * HALF_TILE_SIZE,
                    forall|l: int|
                        0 <= l < colors@.len() ==> (#[trigger] colors@[l]) == row@[strip_index(
                            r as int,
                            l,
                        )],
                decreases HALF_TILE_SIZE - vy,
            {
                let mut vx: usize = 0;
                while vx < HALF_TILE_SIZE
                    invariant
                        r < BLOCK_ROWS,
                        start == r * HALF_TILE_SIZE,
                        vy < HALF_TILE_SIZE,
                        vx <= HALF_TILE_SIZE,
                        row@.len() == QUADRANT_STRIP,
                        colors@.len() == vy * HALF_TILE_SIZE + vx,
                        forall|l: int|
                            0 <= l < colors@.len() ==> (#[trigger] colors@[l]) == row@[strip_index(
                                r as int,
                                l,
                            )],
                    decreases HALF_TILE_SIZE - vx,
                {
                    let wpos: usize = start + vx + vy * HALF_TILE_SIZE * BLOCK_ROWS;
                    colors.push(row[wpos]);
                    vx += 1;
                }
                vy += 1;
            }
            data.push(TileLayer { colors });
            r += 1;
        }
        Some(SubTile { quadrant, data })
    }

    /// The grid to draw from, given the occupancy of the three neighbours
    /// that touch this quadrant.
    pub fn get(&self, adj: &[bool]) -> (layer: &TileLayer)
        requires
            self.wf(),
            adj@.len() == 3,
        ensures
            layer@ == self.variant(variant_index(self.quadrant() as int, adj@)),
            layer@.len() == QUADRANT_AREA,
    {
        let parity: usize = self.quadrant % 2;
        let horizontal: bool = adj[2 * parity];
        let vertical: bool = adj[2 * (1 - parity)];
        let diagonal: bool = adj[1];
        let idx: usize = if horizontal && vertical {
            if diagonal {
                4
            } else {
                3
            }
        } else if horizontal {
            2
        } else if vertical {
            1
        } else {
            0
        };
        &self.data[idx]
    }
}

} // verus!
