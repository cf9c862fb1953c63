//! The render pass: one clear, then one filled square per tile.
//!
//! A pass is a value, the list of draw calls in the order in which they are to
//! be issued. Nothing is drawn here and nothing is kept between passes, so a
//! pass is a function of the viewport, the tile size and the animation phase.

use vstd::prelude::*;
use crate::color::{Rgb, FULL_INTENSITY, GREEN_STEP, RED_STEP};
use crate::grid::{
    law_grid_empty_below_one_tile, lemma_grid_bounds, num_cols, num_rows, num_tiles, Viewport,
};
use crate::tile::{lemma_product_fits, tile_at, Tile};

verus! {

/// One operation on a graphics context.
#[derive(Clone, Copy, Debug, PartialEq, Eq, Structural)]
pub enum DrawCall {
    /// Fill the whole viewport with `color`.
    Clear { color: Rgb },
    /// Fill the rectangle whose top left corner is `(x, y)`.
    Rect { x: u64, y: u64, width: u32, height: u32, color: Rgb },
}

/// What one render event asks to be shown: the viewport to set on the
/// context, then the calls to issue against it, first to last.
#[derive(Clone, Debug, PartialEq, Eq)]
pub struct Frame {
    pub viewport: Viewport,
    pub calls: Vec<DrawCall>,
}

/// A frame as a mathematical value.
pub ghost struct FrameView {
    pub viewport: Viewport,
    pub calls: Seq<DrawCall>,
}

impl View for Frame {
    type V = FrameView;

    open spec fn view(&self) -> FrameView {
        FrameView { viewport: self.viewport, calls: self.calls@ }
    }
}

/// The call that fills `tile`.
pub open spec fn rect_of(tile: Tile) -> DrawCall {
    DrawCall::Rect {
        x: tile.x,
        y: tile.y,
        width: tile.size,
        height: tile.size,
        color: tile.color,
    }
}

/// The `index`-th tile of the grid, counting along the rows from the top
/// left: the tile in row `index / cols` and column `index % cols`.
pub open spec fn grid_tile(viewport: Viewport, tile_size: u32, phase: u64, index: int) -> Tile
    recommends
        tile_size > 0,
        0 <= index < num_tiles(viewport, tile_size),
{
    let cols: int = num_cols(viewport, tile_size);
    tile_at(tile_size, phase, (index / cols) as u32, (index % cols) as u32)
}

/// The calls of a pass: the clear to white, then every tile of the grid, row
/// by row from the top and, within a row, column by column from the left.
pub open spec fn draw_calls(viewport: Viewport, tile_size: u32, phase: u64) -> Seq<DrawCall>
    recommends
        tile_size > 0,
{
    seq![DrawCall::Clear { color: Rgb::white() }] + Seq::new(
        num_tiles(viewport, tile_size) as nat,
        |index: int| rect_of(grid_tile(viewport, tile_size, phase, index)),
    )
}

/// The frame of a pass.
pub open spec fn frame_of(viewport: Viewport, tile_size: u32, phase: u64) -> FrameView
    recommends
        tile_size > 0,
{
    FrameView { viewport, calls: draw_calls(viewport, tile_size, phase) }
}

/// Counting along the rows, the tile at `(row, col)` of a grid with `cols`
/// columns is number `row * cols + col`, and no other tile has that number.
pub proof fn lemma_cell_index(rows: int, cols: int, row: int, col: int)
    requires
        0 <= row < rows,
        0 <= col < cols,
    ensures
        0 <= row * cols + col < rows * cols,
        (row * cols + col) / cols == row,
        (row * cols + col) % cols == col,
{
    assert(0 <= row * cols) by (nonlinear_arith)
        requires
            0 <= row,
            0 < cols,
    ;
    assert(row * cols + cols <= rows * cols) by (nonlinear_arith)
        requires
            row + 1 <= rows,
            0 < cols,
    ;
    vstd::arithmetic::div_mod::lemma_fundamental_div_mod_converse(
        row * cols + col,
        cols,
        row,
        col,
    );
}

/// Every number below `rows * cols` is that of a tile inside the grid.
pub proof fn lemma_index_cell(rows: int, cols: int, index: int)
    requires
        0 <= index < rows * cols,
        0 <= rows,
        0 <= cols,
    ensures
        0 < cols,
        0 <= index / cols < rows,
        0 <= index % cols < cols,
        index == (index / cols) * cols + index % cols,
{
    assert(cols != 0) by (nonlinear_arith)
        requires
            0 <= index < rows * cols,
    ;
    vstd::arithmetic::div_mod::lemma_fundamental_div_mod(index, cols);
    vstd::arithmetic::div_mod::lemma_mod_pos_bound(index, cols);
    vstd::arithmetic::div_mod::lemma_div_pos_is_pos(index, cols);
    let q: int = index / cols;
    assert(cols * q == q * cols) by (nonlinear_arith);
    assert(q < rows) by (nonlinear_arith)
        requires
            q * cols <= index,
            index < rows * cols,
            0 < cols,
    ;
}

/// Renders one pass: clears to white, then fills every tile of the grid in
/// row-major order. A viewport smaller than one tile gets the clear alone.
pub fn render(viewport: Viewport, tile_size: u32, phase: u64) -> (frame: Frame)
    requires
        tile_size > 0,
    ensures
        frame@ == frame_of(viewport, tile_size, phase),
{
    let cols: u32 = viewport.cols(tile_size);
    let rows: u32 = viewport.rows(tile_size);
    let ghost pass = draw_calls(viewport, tile_size, phase);
    let mut calls: Vec<DrawCall> = Vec::new();
    calls.push(DrawCall::Clear { color: Rgb::white() });
    assert(calls@ =~= pass.take(1));
    let mut row: u32 = 0;
    while row < rows
        invariant
            tile_size > 0,
            cols == num_cols(viewport, tile_size),
            rows == num_rows(viewport, tile_size),
            row <= rows,
            pass == draw_calls(viewport, tile_size, phase),
            calls@ == pass.take(1 + row * cols),
        decreases rows - row,
    {
        let mut col: u32 = 0;
        while col < cols
            invariant
                tile_size > 0,
                cols == num_cols(viewport, tile_size),
                rows == num_rows(viewport, tile_size),
                row < rows,
                col <= cols,
                pass == draw_calls(viewport, tile_size, phase),
                calls@ == pass.take(1 + row * cols + col),
            decreases cols - col,
        {
            let tile = Tile::new(tile_size, phase, row, col);
            proof {
                let index: int = row * cols + col;
                lemma_cell_index(rows as int, cols as int, row as int, col as int);
                assert(pass[1 + index] == rect_of(grid_tile(viewport, tile_size, phase, index)));
                assert(pass.take(1 + index).push(pass[1 + index]) =~= pass.take(1 + index + 1));
            }
            calls.push(
                DrawCall::Rect {
                    x: tile.x,
                    y: tile.y,
                    width: tile.size,
                    height: tile.size,
                    color: tile.color,
                },
            );
            col += 1;
        }
        proof {
            assert(row * cols + cols == (row + 1) * cols) by (nonlinear_arith);
        }
        row += 1;
    }
    assert(calls@ =~= pass);
    Frame { viewport, calls }
}

/// A pass is the clear to white followed by nothing but rectangles, one for
/// each tile of the grid: `rows * cols` of them, so `rows * cols + 1` calls.
pub proof fn law_pass_shape(viewport: Viewport, tile_size: u32, phase: u64)
    requires
        tile_size > 0,
    ensures
        draw_calls(viewport, tile_size, phase).len() == num_rows(viewport, tile_size) * num_cols(
            viewport,
            tile_size,
        ) + 1,
        draw_calls(viewport, tile_size, phase)[0] == (DrawCall::Clear { color: Rgb::white() }),
        Rgb::white().red == FULL_INTENSITY && Rgb::white().green == FULL_INTENSITY
            && Rgb::white().blue == FULL_INTENSITY,
        forall|k: int|
            1 <= k < draw_calls(viewport, tile_size, phase).len() ==> #[trigger] draw_calls(
                viewport,
                tile_size,
                phase,
            )[k] is Rect,
{
    lemma_grid_bounds(viewport, tile_size);
    assert(0 <= num_rows(viewport, tile_size) * num_cols(viewport, tile_size)) by (nonlinear_arith)
        requires
            0 <= num_rows(viewport, tile_size),
            0 <= num_cols(viewport, tile_size),
    ;
}

/// The tile at `(row, col)` is drawn by call number `1 + row * cols + col`, as
/// a square of `tile_size` pixels whose corner is at
/// `(col * tile_size, row * tile_size)`, in a colour whose red is
/// `(col + 1) * RED_STEP`, whose green is `(row + 1) * GREEN_STEP` and whose
/// blue is the phase. The colour and the place of a tile depend on its own
/// row and column only, not on the tiles drawn before it.
pub proof fn law_pass_tile(viewport: Viewport, tile_size: u32, phase: u64, row: int, col: int)
    requires
        tile_size > 0,
        0 <= row < num_rows(viewport, tile_size),
        0 <= col < num_cols(viewport, tile_size),
    ensures
        1 <= 1 + row * num_cols(viewport, tile_size) + col < draw_calls(
            viewport,
            tile_size,
            phase,
        ).len(),
        draw_calls(viewport, tile_size, phase)[1 + row * num_cols(viewport, tile_size) + col]
            matches DrawCall::Rect { x, y, width, height, color } && {
            &&& x == col * tile_size
            &&& y == row * tile_size
            &&& width == tile_size
            &&& height == tile_size
            &&& color.red == (col + 1) * RED_STEP
            &&& color.green == (row + 1) * GREEN_STEP
            &&& color.blue == phase
        },
        draw_calls(viewport, tile_size, phase)[1 + row * num_cols(viewport, tile_size) + col]
            == rect_of(tile_at(tile_size, phase, row as u32, col as u32)),
{
    let rows: int = num_rows(viewport, tile_size);
    let cols: int = num_cols(viewport, tile_size);
    lemma_grid_bounds(viewport, tile_size);
    lemma_cell_index(rows, cols, row, col);
    lemma_product_fits(col as u32, tile_size);
    lemma_product_fits(row as u32, tile_size);
    let index: int = row * cols + col;
    assert(draw_calls(viewport, tile_size, phase)[1 + index] == rect_of(
        grid_tile(viewport, tile_size, phase, index),
    ));
}

/// Every call after the clear draws a tile that lies inside the grid: call
/// number `k` draws the tile in row `(k - 1) / cols` and column
/// `(k - 1) % cols`. As each tile has a call of its own, no tile is skipped
/// and none is drawn twice.
pub proof fn law_pass_call(viewport: Viewport, tile_size: u32, phase: u64, k: int)
    requires
        tile_size > 0,
        1 <= k < draw_calls(viewport, tile_size, phase).len(),
    ensures
        ({
            let cols: int = num_cols(viewport, tile_size);
            let row: int = (k - 1) / cols;
            let col: int = (k - 1) % cols;
            &&& 0 <= row < num_rows(viewport, tile_size)
            &&& 0 <= col < cols
            &&& k == 1 + row * cols + col
            &&& draw_calls(viewport, tile_size, phase)[k] == rect_of(
                tile_at(tile_size, phase, row as u32, col as u32),
            )
        }),
{
    lemma_grid_bounds(viewport, tile_size);
    lemma_index_cell(num_rows(viewport, tile_size), num_cols(viewport, tile_size), k - 1);
    assert(draw_calls(viewport, tile_size, phase)[k] == rect_of(
        grid_tile(viewport, tile_size, phase, k - 1),
    ));
}

/// Two passes over the same viewport, with the same tile size and at the same
/// phase, issue the same calls in the same order.
pub proof fn law_render_is_repeatable(
    first: FrameView,
    second: FrameView,
    viewport: Viewport,
    tile_size: u32,
    phase: u64,
)
    requires
        tile_size > 0,
        first == frame_of(viewport, tile_size, phase),
        second == frame_of(viewport, tile_size, phase),
    ensures
        first == second,
        first.calls == second.calls,
{
}

/// A viewport narrower or lower than one tile gets the clear and no
/// rectangle.
pub proof fn law_small_viewport_only_clears(viewport: Viewport, tile_size: u32, phase: u64)
    requires
        tile_size > 0,
        viewport.width < tile_size || viewport.height < tile_size,
    ensures
        draw_calls(viewport, tile_size, phase) == seq![DrawCall::Clear { color: Rgb::white() }],
{
    law_grid_empty_below_one_tile(viewport, tile_size);
    assert(draw_calls(viewport, tile_size, phase) =~= seq![
        DrawCall::Clear { color: Rgb::white() },
    ]);
}

} // verus!
