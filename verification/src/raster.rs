//! Rasterization of the machine's monochrome framebuffer.
//!
//! The screen is a fixed grid of 64x32 binary pixels. Each frame, the shell
//! draws one filled rectangle per grid cell over a cleared black surface:
//! opaque white where the source pixel is nonzero, opaque black where it is
//! zero. This module computes, as plain values, which cell gets which color;
//! the real-valued cell geometry (`viewport_width / 64` by
//! `viewport_height / 32` per cell) is floating point and stays with the
//! drawing layer, which scales each cell's `col` and `row` by the cell size.

use vstd::prelude::*;

verus! {

/// One cell-draw operation: fill the cell at grid column `col`, row `row`
/// with the "on" color (opaque white) when `on` is true, else the "off"
/// color (opaque black).
#[derive(Clone, Copy, PartialEq, Eq, Structural, Debug)]
pub struct FrameCell {
    pub col: u8,
    pub row: u8,
    pub on: bool,
}

/// Whether `grid` has the screen's fixed shape: 32 rows of 64 pixels each.
pub open spec fn grid_well_formed(grid: Seq<Seq<u8>>) -> bool {
    &&& grid.len() == 32
    &&& forall|y: int| 0 <= y < 32 ==> #[trigger] grid[y].len() == 64
}

/// The cell-draw operation with row-major flat index `i` for `grid`.
pub open spec fn cell_spec(grid: Seq<Seq<u8>>, i: int) -> FrameCell {
    FrameCell { col: (i % 64) as u8, row: (i / 64) as u8, on: grid[i / 64][i % 64] != 0 }
}

/// All cell-draw operations for `grid`: exactly 64 * 32 = 2048 of them,
/// row-major, one per grid cell, whatever the viewport size is.
pub open spec fn raster_spec(grid: Seq<Seq<u8>>) -> Seq<FrameCell> {
    Seq::new(2048, |i: int| cell_spec(grid, i))
}

/// Converts one pixel grid into the full list of cell-draw operations.
/// Reentrant and state-free: the result depends on `rows` alone.
pub fn rasterize(rows: &Vec<Vec<u8>>) -> (cells: Vec<FrameCell>)
    requires
        grid_well_formed(rows.deep_view()),
    ensures
        cells@ == raster_spec(rows.deep_view()),
        cells@.len() == 2048,
{
    let ghost grid = rows.deep_view();
    let mut cells: Vec<FrameCell> = Vec::new();
    let mut y: usize = 0;
    while y < 32
        invariant
            grid == rows.deep_view(),
            grid_well_formed(grid),
            y <= 32,
            cells@.len() == y * 64,
            forall|i: int| 0 <= i < cells@.len() ==> cells@[i] == cell_spec(grid, i),
        decreases 32 - y,
    {
        let mut x: usize = 0;
        while x < 64
            invariant
                grid == rows.deep_view(),
                grid_well_formed(grid),
                y < 32,
                x <= 64,
                cells@.len() == y * 64 + x,
                forall|i: int| 0 <= i < cells@.len() ==> cells@[i] == cell_spec(grid, i),
            decreases 64 - x,
        {
            proof {
                assert(rows@.len() == grid.len());
                assert(grid[y as int] == rows@[y as int].deep_view());
                assert(rows@[y as int]@.len() == grid[y as int].len());
            }
            let px = rows[y][x];
            cells.push(FrameCell { col: x as u8, row: y as u8, on: px != 0 });
            proof {
                let i = y * 64 + x;
                assert(i / 64 == y && i % 64 == x) by (nonlinear_arith)
                    requires
                        0 <= y < 32,
                        0 <= x < 64,
                        i == y * 64 + x,
                ;
                assert(grid[i as int / 64] == rows@[y as int].deep_view());
                assert(grid[i as int / 64][i as int % 64] == rows@[y as int]@[x as int]);
                assert(cells@[i as int] == cell_spec(grid, i as int));
            }
            x += 1;
        }
        y += 1;
    }
    proof {
        assert(cells@ =~= raster_spec(grid));
    }
    cells
}

/// On an all-zero grid every one of the 2048 cell-draw operations resolves to
/// the "off" color; on an all-nonzero grid, every one to the "on" color.
pub proof fn lemma_raster_uniform_grids(grid: Seq<Seq<u8>>)
    requires
        grid_well_formed(grid),
    ensures
        (forall|y: int, x: int| 0 <= y < 32 && 0 <= x < 64 ==> #[trigger] grid[y][x] == 0)
            ==> forall|i: int| 0 <= i < 2048 ==> !(#[trigger] raster_spec(grid)[i].on),
        (forall|y: int, x: int| 0 <= y < 32 && 0 <= x < 64 ==> #[trigger] grid[y][x] != 0)
            ==> forall|i: int| 0 <= i < 2048 ==> (#[trigger] raster_spec(grid)[i].on),
{
    if forall|y: int, x: int| 0 <= y < 32 && 0 <= x < 64 ==> #[trigger] grid[y][x] == 0 {
        assert forall|i: int| 0 <= i < 2048 implies !(#[trigger] raster_spec(grid)[i].on) by {
            assert(0 <= i / 64 < 32 && 0 <= i % 64 < 64) by (nonlinear_arith)
                requires
                    0 <= i < 2048,
            ;
            assert(grid[i / 64][i % 64] == 0);
        }
    }
    if forall|y: int, x: int| 0 <= y < 32 && 0 <= x < 64 ==> #[trigger] grid[y][x] != 0 {
        assert forall|i: int| 0 <= i < 2048 implies #[trigger] raster_spec(grid)[i].on by {
            assert(0 <= i / 64 < 32 && 0 <= i % 64 < 64) by (nonlinear_arith)
                requires
                    0 <= i < 2048,
            ;
            assert(grid[i / 64][i % 64] != 0);
        }
    }
}

/// Rasterization always yields exactly 2048 cell-draw operations, and the
/// operation at flat index `i` addresses column `i % 64` of row `i / 64`:
/// every grid cell is drawn exactly once, row-major.
pub proof fn lemma_raster_covers_grid(grid: Seq<Seq<u8>>)
    ensures
        raster_spec(grid).len() == 2048,
        forall|i: int| 0 <= i < 2048
            ==> #[trigger] raster_spec(grid)[i].col as int == i % 64
                && raster_spec(grid)[i].row as int == i / 64,
{
}

} // verus!
