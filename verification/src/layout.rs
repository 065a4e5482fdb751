//! The pixel grid of a sheet: where each cell lies and how large a photo may be.

use vstd::prelude::*;
use vstd::arithmetic::div_mod::{lemma_fundamental_div_mod, lemma_mod_bound};

verus! {

/// The measures of a sheet in pixels, as converted from the physical
/// parameters and before the target height has been held against the cell.
pub struct Measures {
    pub page_width_px: u32,
    pub page_height_px: u32,
    /// Blank border on each side of the page.
    pub page_border_px: u32,
    /// Gap between two rows.
    pub margin_v_px: u32,
    /// Gap between two columns.
    pub margin_h_px: u32,
    /// The photo height that was asked for.
    pub requested_height_px: u32,
    /// The tallest photo that still leaves room for `grid_rows` rows.
    pub max_cell_height_px: u32,
    /// The widest photo that still leaves room for `grid_cols` columns.
    pub max_cell_width_px: u32,
    pub grid_rows: u32,
    pub grid_cols: u32,
}

/// The layout of a sheet, fixed for a whole run.
pub struct LayoutConfig {
    pub page_width_px: u32,
    pub page_height_px: u32,
    pub page_border_px: u32,
    pub margin_v_px: u32,
    pub margin_h_px: u32,
    /// The height every photo is scaled to; never above `max_cell_height_px`.
    pub target_height_px: u32,
    pub max_cell_height_px: u32,
    pub max_cell_width_px: u32,
    pub grid_rows: u32,
    pub grid_cols: u32,
}

/// Row and column of the cell with the given index, counting row by row
/// through a grid `nh` cells wide.
pub open spec fn row_and_col(nh: int, idx: int) -> (int, int) {
    (idx / nh, idx % nh)
}

/// The largest coordinate that can be handed on; anything beyond it lies
/// off every page.
pub open spec fn clip(v: int) -> int {
    if v > i64::MAX {
        i64::MAX as int
    } else {
        v
    }
}

impl Measures {
    /// The grid has at least one cell, and its cell count fits in 32 bits.
    pub open spec fn grid_ok(&self) -> bool {
        &&& self.grid_rows >= 1
        &&& self.grid_cols >= 1
        &&& self.grid_rows * self.grid_cols <= u32::MAX
    }
}

impl LayoutConfig {
    /// The target height respects the cell, the grid has at least one cell,
    /// and its cell count fits in 32 bits.
    pub open spec fn wf(&self) -> bool {
        &&& self.target_height_px <= self.max_cell_height_px
        &&& self.grid_rows >= 1
        &&& self.grid_cols >= 1
        &&& self.grid_rows * self.grid_cols <= u32::MAX
    }

    /// The layout that `new` makes of the measures: the same values, with the
    /// target height lowered to the cell height where it was above it.
    pub open spec fn of(m: Measures) -> LayoutConfig {
        LayoutConfig {
            page_width_px: m.page_width_px,
            page_height_px: m.page_height_px,
            page_border_px: m.page_border_px,
            margin_v_px: m.margin_v_px,
            margin_h_px: m.margin_h_px,
            target_height_px: if m.requested_height_px > m.max_cell_height_px {
                m.max_cell_height_px
            } else {
                m.requested_height_px
            },
            max_cell_height_px: m.max_cell_height_px,
            max_cell_width_px: m.max_cell_width_px,
            grid_rows: m.grid_rows,
            grid_cols: m.grid_cols,
        }
    }

    /// Number of photos on a full page.
    pub open spec fn cells(&self) -> nat {
        (self.grid_rows * self.grid_cols) as nat
    }

    /// Left edge of the cells in column `col`.
    pub open spec fn cell_x(&self, col: int) -> int {
        self.page_border_px + col * (self.max_cell_width_px + self.margin_h_px)
    }

    /// Top edge of the cells in row `row`.
    pub open spec fn cell_y(&self, row: int) -> int {
        self.page_border_px + row * (self.max_cell_height_px + self.margin_v_px)
    }

    /// Builds the layout. A requested height above the cell height is
    /// lowered to it; the second result says whether that happened, so that
    /// the caller can warn.
    pub fn new(m: Measures) -> (out: (LayoutConfig, bool))
        requires
            m.grid_ok(),
        ensures
            out.0 == LayoutConfig::of(m),
            out.0.wf(),
            out.1 == (m.requested_height_px > m.max_cell_height_px),
            out.1 ==> out.0.target_height_px == m.max_cell_height_px,
            !out.1 ==> out.0.target_height_px == m.requested_height_px,
    {
        let lowered = m.requested_height_px > m.max_cell_height_px;
        let target_height_px: u32 = if lowered {
            m.max_cell_height_px
        } else {
            m.requested_height_px
        };
        (
            LayoutConfig {
                page_width_px: m.page_width_px,
                page_height_px: m.page_height_px,
                page_border_px: m.page_border_px,
                margin_v_px: m.margin_v_px,
                margin_h_px: m.margin_h_px,
                target_height_px,
                max_cell_height_px: m.max_cell_height_px,
                max_cell_width_px: m.max_cell_width_px,
                grid_rows: m.grid_rows,
                grid_cols: m.grid_cols,
            },
            lowered,
        )
    }

    /// Number of photos on a full page: the batch size of a run.
    pub fn capacity(&self) -> (n: usize)
        requires
            self.wf(),
        ensures
            n == self.cells(),
            n >= 1,
    {
        assert(self.grid_rows * self.grid_cols >= 1) by (nonlinear_arith)
            requires
                self.grid_rows >= 1,
                self.grid_cols >= 1,
        ;
        let cells: u32 = self.grid_rows * self.grid_cols;
        cells as usize
    }

    /// Top-left corner of the cell at `row` and `col`, each coordinate
    /// clipped to what fits in 64 bits.
    pub fn cell_origin(&self, row: u32, col: u32) -> (origin: (i64, i64))
        ensures
            origin.0 == clip(self.cell_x(col as int)),
            origin.1 == clip(self.cell_y(row as int)),
            origin.0 >= 0,
            origin.1 >= 0,
    {
        let x = offset(self.page_border_px, col, self.max_cell_width_px, self.margin_h_px);
        let y = offset(self.page_border_px, row, self.max_cell_height_px, self.margin_v_px);
        (x, y)
    }
}

/// `border + steps * (cell + gap)`, clipped to what fits in 64 bits.
fn offset(border: u32, steps: u32, cell: u32, gap: u32) -> (at: i64)
    ensures
        at == clip(border + steps * (cell + gap)),
        at >= 0,
{
    let pitch: u128 = cell as u128 + gap as u128;
    assert(steps * pitch <= 0xffff_ffff * 0x1_ffff_fffe) by (nonlinear_arith)
        requires
            0 <= steps <= 0xffff_ffff,
            0 <= pitch <= 0x1_ffff_fffe,
    ;
    let wide: u128 = border as u128 + steps as u128 * pitch;
    if wide > 0x7fff_ffff_ffff_ffff {
        0x7fff_ffff_ffff_ffff
    } else {
        wide as i64
    }
}

/// Counting row by row gives every index below `rows * nh` a cell of its
/// own inside the grid: the column is below `nh`, the row below `rows`, and
/// the two give the index back.
pub proof fn lemma_row_and_col_in_grid(nh: int, rows: int, idx: int)
    requires
        nh > 0,
        0 <= idx < rows * nh,
    ensures
        0 <= row_and_col(nh, idx).0 < rows,
        0 <= row_and_col(nh, idx).1 < nh,
        row_and_col(nh, idx).0 * nh + row_and_col(nh, idx).1 == idx,
{
    lemma_fundamental_div_mod(idx, nh);
    lemma_mod_bound(idx, nh);
    let row = idx / nh;
    assert(nh * row == row * nh) by (nonlinear_arith);
    assert(0 <= row < rows) by (nonlinear_arith)
        requires
            nh > 0,
            0 <= idx < rows * nh,
            idx - nh < row * nh <= idx,
    ;
}

/// Row and column of cell `idx` in a grid `nh` cells wide, counting row by
/// row from the top left.
pub fn row_and_col_from_index(nh: usize, idx: usize) -> (cell: (u32, u32))
    requires
        nh > 0,
    ensures
        cell.0 == row_and_col(nh as int, idx as int).0 as u32,
        cell.1 == row_and_col(nh as int, idx as int).1 as u32,
{
    let row = #[verifier::truncate] ((idx / nh) as u32);
    let col = #[verifier::truncate] ((idx % nh) as u32);
    (row, col)
}

} // verus!
