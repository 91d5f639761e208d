//! Tiles of categorical pixels, and the compositors that pick the pixel to
//! draw at a position.
//!
//! An image is decoded into pixels of four kinds (`pixel`, `layer`). A list
//! of layer repeats is unrolled into a table from logical slot to physical
//! layer (`repeat`). Three kinds of asset answer pixel lookups: the flat
//! tile (`tile`), the block material, which blends four quadrants by the
//! occupancy of the neighbouring cells (`subtile`, `block`), and the
//! wrapping texture (`texture`). Each is built from decoded pixel data and a
//! metadata record (`meta`), or straight from the bytes of a PNG file
//! (`loader`); what is wrong with an input is told by an error (`error`).

pub mod block;
pub mod error;
pub mod layer;
pub mod loader;
pub mod meta;
pub mod pixel;
pub mod repeat;
pub mod subtile;
pub mod texture;
pub mod tile;
pub mod vec2;
