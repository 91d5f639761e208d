//! The wrapping texture: one large grid that repeats in both directions.

use vstd::prelude::*;
use vstd::slice::slice_to_vec;
use crate::error::DecodeError;
use crate::layer::{encoding_fault, pixels_of, well_encoded, TileLayer};
use crate::meta::TextureMeta;
use crate::pixel::{TilePixel, TILE_SIZE};
use crate::vec2::UVec2;

verus! {

/// A background texture that tiles the plane without seams.
#[derive(Debug, Clone)]
pub struct TileTexture {
    /// The pixels, row by row.
    pub texture: TileLayer,
    /// The extent in tiles.
    pub size: UVec2,
    /// The pixel values that a renderer is to treat as see-through. No
    /// lookup reads it.
    pub filter: Vec<TilePixel>,
    /// The physical layers that the texture was made from.
    pub layers: Vec<usize>,
}

/// Width in pixels of a texture that is `size.x` tiles wide.
pub open spec fn texture_width(size: UVec2) -> int {
    size.x * TILE_SIZE
}

/// Height in pixels of a texture that is `size.y` tiles high.
pub open spec fn texture_height(size: UVec2) -> int {
    size.y * TILE_SIZE
}

/// The error that the bytes and metadata of a texture are rejected with,
/// when they are rejected.
pub open spec fn texture_fault(data: Seq<u8>, settings: TextureMeta) -> DecodeError {
    if !well_encoded(data) {
        encoding_fault(data)
    } else if settings.size.x == 0 || settings.size.y == 0 {
        DecodeError::EmptyGrid
    } else {
        DecodeError::WrongExtent
    }
}

/// The pixel values that a freshly loaded texture marks as see-through.
pub open spec fn default_filter() -> Seq<TilePixel> {
    seq![TilePixel::Absent, TilePixel::Neutral]
}

/// The remainder of a coordinate by an extent, counted from the multiple of
/// the extent at or below the coordinate, so that it is never negative.
fn wrap(v: i64, extent: u64) -> (r: u64)
    requires
        0 < extent <= 0x14_0000_0000,
    ensures
        r == (v as int) % (extent as int),
        r < extent,
{
    if v >= 0 {
        v as u64 % extent
    } else {
        let back: u64 = (-(v + 1)) as u64;
        let over: u64 = back % extent;
        proof {
            let q = (back / extent) as int;
            vstd::arithmetic::div_mod::lemma_fundamental_div_mod(back as int, extent as int);
            assert(v == (-q - 1) * extent + (extent - 1 - over)) by (nonlinear_arith)
                requires
                    back == extent * q + over,
                    v == -back - 1,
            ;
            vstd::arithmetic::div_mod::lemma_fundamental_div_mod_converse(
                v as int,
                extent as int,
                -q - 1,
                extent - 1 - over,
            );
        }
        extent - 1 - over
    }
}

impl TileTexture {
    /// The texture has tiles in both directions and one pixel for each
    /// position of its extent.
    pub open spec fn wf(&self) -> bool {
        &&& self.size.x > 0
        &&& self.size.y > 0
        &&& self.texture@.len() == texture_width(self.size) * texture_height(self.size)
    }

    /// The pixel at a position of the plane: each coordinate wraps around
    /// the texture's extent, and the wrapped position is read row by row.
    pub open spec fn pixel_at(&self, x: int, y: int) -> TilePixel {
        self.texture@[x % texture_width(self.size) + (y % texture_height(self.size))
            * texture_width(self.size)]
    }

    /// A wrapped position always lies inside the texture.
    pub proof fn lemma_wrapped_in_bounds(&self, x: int, y: int)
        requires
            self.wf(),
        ensures
            0 <= x % texture_width(self.size) + (y % texture_height(self.size)) * texture_width(
                self.size,
            ) < self.texture@.len(),
    {
        let w = texture_width(self.size);
        let h = texture_height(self.size);
        let wx = x % w;
        let wy = y % h;
        assert(0 <= wx < w && 0 <= wy < h);
        assert(0 <= wx + wy * w < w * h) by (nonlinear_arith)
            requires
                0 <= wx < w,
                0 <= wy < h,
        ;
    }

    /// The texture is periodic: moving a position by any whole number of
    /// texture widths and any whole number of texture heights, forwards or
    /// backwards, leaves the pixel what it was.
    pub proof fn lemma_pixel_periodic(&self, x: int, y: int, kx: int, ky: int)
        requires
            self.wf(),
        ensures
            self.pixel_at(
                x + kx * texture_width(self.size),
                y + ky * texture_height(self.size),
            ) == self.pixel_at(x, y),
    {
        let w = texture_width(self.size);
        let h = texture_height(self.size);
        vstd::arithmetic::div_mod::lemma_mod_multiples_vanish(kx, x, w);
        vstd::arithmetic::div_mod::lemma_mod_multiples_vanish(ky, y, h);
        assert(w * kx + x == x + kx * w) by (nonlinear_arith);
        assert(h * ky + y == y + ky * h) by (nonlinear_arith);
    }

    /// `r` is what the pixel data `data` and the metadata `settings` make:
    /// a texture exactly when `data` is well encoded and holds one pixel for
    /// each position of a non-empty extent, which then holds those pixels,
    /// the extent, the layers named and the default filter; else the error
    /// that says what is wrong.
    pub open spec fn built_from(
        r: Result<TileTexture, DecodeError>,
        data: Seq<u8>,
        settings: TextureMeta,
    ) -> bool {
        &&& r is Ok <==> {
            &&& well_encoded(data)
            &&& settings.size.x > 0
            &&& settings.size.y > 0
            &&& data.len() / 4 == texture_width(settings.size) * texture_height(settings.size)
        }
        &&& r matches Err(e) ==> e == texture_fault(data, settings)
        &&& r matches Ok(t) ==> {
            &&& t.wf()
            &&& t.texture@ == pixels_of(data)
            &&& t.size == settings.size
            &&& t.layers@ == settings.layers@
            &&& t.filter@ == default_filter()
        }
    }

    /// Makes a texture from its pixels, its extent in tiles and the layers
    /// it was made from, if it has tiles in both directions and one pixel
    /// for each position.
    pub fn new(texture: TileLayer, size: UVec2, layers: Vec<usize>) -> (r: Result<
        TileTexture,
        DecodeError,
    >)
        ensures
            r is Ok <==> size.x > 0 && size.y > 0 && texture@.len() == texture_width(size)
                * texture_height(size),
            r matches Err(e) ==> e == (if size.x == 0 || size.y == 0 {
                DecodeError::EmptyGrid
            } else {
                DecodeError::WrongExtent
            }),
            r matches Ok(t) ==> {
                &&& t.wf()
                &&& t.texture@ == texture@
                &&& t.size == size
                &&& t.layers@ == layers@
                &&& t.filter@ == default_filter()
            },
    {
        if size.x == 0 || size.y == 0 {
            return Err(DecodeError::EmptyGrid);
        }
        let tile: u64 = TILE_SIZE as u64;
        assert(tile == 20);
        let width: u64 = size.x as u64 * tile;
        let height: u64 = size.y as u64 * tile;
        assert(width * height <= 0x14_0000_0000 * 0x14_0000_0000) by (nonlinear_arith)
            requires
                width <= 0x14_0000_0000,
                height <= 0x14_0000_0000,
        ;
        let area: u128 = width as u128 * height as u128;
        if texture.colors.len() as u128 != area {
            return Err(DecodeError::WrongExtent);
        }
        let mut filter: Vec<TilePixel> = Vec::new();
        filter.push(TilePixel::Absent);
        filter.push(TilePixel::Neutral);
        Ok(TileTexture { texture, size, filter, layers })
    }

    /// Tells whether the texture has tiles in both directions and one pixel
    /// for each position of its extent.
    pub fn is_wf(&self) -> (b: bool)
        ensures
            b == self.wf(),
    {
        if self.size.x == 0 || self.size.y == 0 {
            return false;
        }
        let tile: u64 = TILE_SIZE as u64;
        assert(tile == 20);
        let width: u64 = self.size.x as u64 * tile;
        let height: u64 = self.size.y as u64 * tile;
        assert(width * height <= 0x14_0000_0000 * 0x14_0000_0000) by (nonlinear_arith)
            requires
                width <= 0x14_0000_0000,
                height <= 0x14_0000_0000,
        ;
        self.texture.colors.len() as u128 == width as u128 * height as u128
    }

    /// The pixel at a position of the plane given by unsigned coordinates,
    /// however far out it lies.
    pub fn get_pixel(&self, pos: UVec2) -> (p: TilePixel)
        requires
            self.wf(),
        ensures
            p == self.pixel_at(pos.x as int, pos.y as int),
    {
        self.get_pixel_at(pos.x as i64, pos.y as i64)
    }

    /// The pixel at a position of the plane, on either side of the origin
    /// and however far out.
    pub fn get_pixel_at(&self, x: i64, y: i64) -> (p: TilePixel)
        requires
            self.wf(),
        ensures
            p == self.pixel_at(x as int, y as int),
    {
        let tile: u64 = TILE_SIZE as u64;
        assert(tile == 20);
        let width: u64 = self.size.x as u64 * tile;
        let height: u64 = self.size.y as u64 * tile;
        let wx: u64 = wrap(x, width);
        let wy: u64 = wrap(y, height);
        assert(wx + wy * width < width * height) by (nonlinear_arith)
            requires
                0 <= wx < width,
                0 <= wy < height,
        ;
        assert(self.texture.colors.len() == width * height);
        let idx: u64 = wx + wy * width;
        self.texture.colors[idx as usize]
    }

    /// Builds a texture from the RGBA bytes of its image and its metadata.
    pub fn from_image(data: &Vec<u8>, settings: &TextureMeta) -> (r: Result<
        TileTexture,
        DecodeError,
    >)
        ensures
            TileTexture::built_from(r, data@, *settings),
    {
        let texture = match TileLayer::from(data) {
            Ok(layer) => layer,
            Err(e) => {
                return Err(e);
            },
        };
        let layers = slice_to_vec(settings.layers.as_slice());
        TileTexture::new(texture, settings.size, layers)
    }
}

} // verus!
