//! How many whole tiles fit into a viewport.

use vstd::prelude::*;

verus! {

/// The drawable size, in pixels, that a render event reports. It follows the
/// window, so it may differ from the size the window was opened with.
#[derive(Clone, Copy, Debug, PartialEq, Eq, Structural)]
pub struct Viewport {
    pub width: u32,
    pub height: u32,
}

/// Columns of the grid: the whole tiles that fit side by side.
pub open spec fn num_cols(viewport: Viewport, tile_size: u32) -> int
    recommends
        tile_size > 0,
{
    viewport.width as int / tile_size as int
}

/// Rows of the grid: the whole tiles that fit one above the other.
pub open spec fn num_rows(viewport: Viewport, tile_size: u32) -> int
    recommends
        tile_size > 0,
{
    viewport.height as int / tile_size as int
}

/// Tiles of the grid.
pub open spec fn num_tiles(viewport: Viewport, tile_size: u32) -> int
    recommends
        tile_size > 0,
{
    num_rows(viewport, tile_size) * num_cols(viewport, tile_size)
}

impl Viewport {
    /// Counts the columns of the grid. Pixels left over at the right edge stay
    /// uncovered.
    pub fn cols(&self, tile_size: u32) -> (n: u32)
        requires
            tile_size > 0,
        ensures
            n == num_cols(*self, tile_size),
    {
        self.width / tile_size
    }

    /// Counts the rows of the grid. Pixels left over at the bottom edge stay
    /// uncovered.
    pub fn rows(&self, tile_size: u32) -> (n: u32)
        requires
            tile_size > 0,
        ensures
            n == num_rows(*self, tile_size),
    {
        self.height / tile_size
    }
}

/// `extent / tile_size` rounds down: it is the one count of tiles that fits
/// into `extent` while one more tile would not.
pub proof fn lemma_floor(extent: int, tile_size: int, n: int)
    requires
        0 <= extent,
        0 < tile_size,
    ensures
        n == extent / tile_size <==> n * tile_size <= extent < (n + 1) * tile_size,
{
    let q: int = extent / tile_size;
    vstd::arithmetic::div_mod::lemma_fundamental_div_mod(extent, tile_size);
    vstd::arithmetic::div_mod::lemma_mod_pos_bound(extent, tile_size);
    assert(tile_size * q == q * tile_size) by (nonlinear_arith);
    assert((q + 1) * tile_size == q * tile_size + tile_size) by (nonlinear_arith);
    assert((n + 1) * tile_size == n * tile_size + tile_size) by (nonlinear_arith);
    if n * tile_size <= extent < (n + 1) * tile_size {
        vstd::arithmetic::div_mod::lemma_fundamental_div_mod_converse(
            extent,
            tile_size,
            n,
            extent - n * tile_size,
        );
    }
}

/// Each side of the grid is the floor of the viewport's extent over the tile
/// size: `cols` is the number of columns exactly when `cols` tiles fit into
/// the width and `cols + 1` do not, and likewise `rows` for the height.
pub proof fn law_grid_is_floor(viewport: Viewport, tile_size: u32, rows: int, cols: int)
    requires
        tile_size > 0,
    ensures
        cols == num_cols(viewport, tile_size) <==> cols * tile_size <= viewport.width < (cols + 1)
            * tile_size,
        rows == num_rows(viewport, tile_size) <==> rows * tile_size <= viewport.height < (rows + 1)
            * tile_size,
        0 <= num_cols(viewport, tile_size) <= viewport.width,
        0 <= num_rows(viewport, tile_size) <= viewport.height,
{
    lemma_floor(viewport.width as int, tile_size as int, cols);
    lemma_floor(viewport.height as int, tile_size as int, rows);
    lemma_grid_bounds(viewport, tile_size);
}

/// Neither side of the grid has more tiles than the viewport has pixels.
pub proof fn lemma_grid_bounds(viewport: Viewport, tile_size: u32)
    requires
        tile_size > 0,
    ensures
        0 <= num_cols(viewport, tile_size) <= viewport.width,
        0 <= num_rows(viewport, tile_size) <= viewport.height,
{
    let c: int = num_cols(viewport, tile_size);
    let r: int = num_rows(viewport, tile_size);
    lemma_floor(viewport.width as int, tile_size as int, c);
    lemma_floor(viewport.height as int, tile_size as int, r);
    vstd::arithmetic::div_mod::lemma_div_pos_is_pos(viewport.width as int, tile_size as int);
    vstd::arithmetic::div_mod::lemma_div_pos_is_pos(viewport.height as int, tile_size as int);
    assert(c <= c * tile_size) by (nonlinear_arith)
        requires
            0 <= c,
            tile_size >= 1,
    ;
    assert(r <= r * tile_size) by (nonlinear_arith)
        requires
            0 <= r,
            tile_size >= 1,
    ;
}

/// A viewport narrower or lower than one tile has no tiles.
pub proof fn law_grid_empty_below_one_tile(viewport: Viewport, tile_size: u32)
    requires
        tile_size > 0,
        viewport.width < tile_size || viewport.height < tile_size,
    ensures
        num_tiles(viewport, tile_size) == 0,
{
    if viewport.width < tile_size {
        vstd::arithmetic::div_mod::lemma_basic_div(viewport.width as int, tile_size as int);
        assert(num_rows(viewport, tile_size) * 0 == 0);
    } else {
        vstd::arithmetic::div_mod::lemma_basic_div(viewport.height as int, tile_size as int);
        assert(0 * num_cols(viewport, tile_size) == 0);
    }
}

} // verus!
