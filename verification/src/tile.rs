//! One cell of the grid.

use vstd::prelude::*;
use crate::color::{gradient, Rgb};

verus! {

/// A square cell of the grid: where it lies in the grid, where it lies on the
/// screen, and its colour. Tiles are worked out anew for every pass; nothing
/// about a tile outlives the frame.
#[derive(Clone, Copy, Debug, PartialEq, Eq, Structural)]
pub struct Tile {
    pub row: u32,
    pub col: u32,
    /// Left edge, in pixels from the left of the viewport.
    pub x: u64,
    /// Top edge, in pixels from the top of the viewport.
    pub y: u64,
    /// Length of each side, in pixels.
    pub size: u32,
    pub color: Rgb,
}

/// The tile at `(row, col)` of a grid of `tile_size` squares while the
/// animation is at `phase`. Tiles are laid edge to edge from the top left
/// corner, and the colour follows the gradient.
pub open spec fn tile_at(tile_size: u32, phase: u64, row: u32, col: u32) -> Tile {
    Tile {
        row,
        col,
        x: (col * tile_size) as u64,
        y: (row * tile_size) as u64,
        size: tile_size,
        color: gradient(row, col, phase),
    }
}

/// The product of two `u32` fits a `u64`.
pub proof fn lemma_product_fits(a: u32, b: u32)
    ensures
        0 <= a * b <= u64::MAX,
{
    assert(0 <= a * b <= 0xffff_ffff * 0xffff_ffff) by (nonlinear_arith)
        requires
            0 <= a <= 0xffff_ffff,
            0 <= b <= 0xffff_ffff,
    ;
}

impl Tile {
    /// Builds the tile at `(row, col)`. The result depends on the arguments
    /// alone, never on tiles built before it.
    pub fn new(tile_size: u32, phase: u64, row: u32, col: u32) -> (tile: Tile)
        ensures
            tile == tile_at(tile_size, phase, row, col),
            tile.x == col * tile_size,
            tile.y == row * tile_size,
    {
        proof {
            lemma_product_fits(col, tile_size);
            lemma_product_fits(row, tile_size);
        }
        Tile {
            row,
            col,
            x: col as u64 * tile_size as u64,
            y: row as u64 * tile_size as u64,
            size: tile_size,
            color: Rgb::of_tile(row, col, phase),
        }
    }
}

} // verus!
