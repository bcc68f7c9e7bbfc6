//! The mathematical model of the universe: a torus of cells laid out row by
//! row, with the neighbour count, the step from one generation to the next
//! and the rendered text.

use vstd::prelude::*;
use vstd::arithmetic::div_mod::lemma_fundamental_div_mod_converse;
use crate::cell::Cell;

verus! {

/// A grid of `height` rows and `width` columns, stored row after row.
pub ghost struct Grid {
    pub width: int,
    pub height: int,
    pub cells: Seq<Cell>,
}

impl Grid {
    /// Both dimensions are at least one and there is exactly one cell per
    /// coordinate.
    pub open spec fn wf(self) -> bool {
        &&& self.width >= 1
        &&& self.height >= 1
        &&& self.cells.len() == self.width * self.height
    }

    /// `row` and `column` name a cell of the grid.
    pub open spec fn in_range(self, row: int, column: int) -> bool {
        0 <= row < self.height && 0 <= column < self.width
    }

    /// The place of the cell at (`row`, `column`) in `cells`.
    pub open spec fn index(self, row: int, column: int) -> int {
        row * self.width + column
    }

    /// The cell at (`row`, `column`).
    pub open spec fn cell(self, row: int, column: int) -> Cell {
        self.cells[self.index(row, column)]
    }

    /// What the cell reached from (`row`, `column`) by going `delta_row` rows
    /// down and `delta_column` columns right, around the edges, adds to the
    /// count of live neighbours. The pair of offsets (0, 0) is the cell
    /// itself and adds nothing.
    pub open spec fn neighbor_weight(self, row: int, column: int, delta_row: int, delta_column: int) -> int {
        if delta_row == 0 && delta_column == 0 {
            0
        } else {
            self.cell(
                (row + delta_row) % self.height,
                (column + delta_column) % self.width,
            ).weight()
        }
    }

    /// The sum of `neighbor_weight` over the three column offsets
    /// `width - 1`, 0 and 1, which stand for left, same and right.
    pub open spec fn row_weight(self, row: int, column: int, delta_row: int) -> int {
        self.neighbor_weight(row, column, delta_row, self.width - 1)
            + self.neighbor_weight(row, column, delta_row, 0)
            + self.neighbor_weight(row, column, delta_row, 1)
    }

    /// The number of live cells around (`row`, `column`): the sum of
    /// `row_weight` over the three row offsets `height - 1`, 0 and 1, which
    /// stand for above, same and below.
    pub open spec fn live_neighbors(self, row: int, column: int) -> int {
        self.row_weight(row, column, self.height - 1)
            + self.row_weight(row, column, 0)
            + self.row_weight(row, column, 1)
    }

    /// The next generation: every cell evolved by the number of live
    /// neighbours it has in this one.
    pub open spec fn step(self) -> Grid {
        Grid {
            width: self.width,
            height: self.height,
            cells: Seq::new(
                self.cells.len(),
                |i: int| self.cells[i].evolved(
                    self.live_neighbors(i / self.width, i % self.width),
                ),
            ),
        }
    }

    /// The grid after `generations` steps.
    pub open spec fn steps(self, generations: nat) -> Grid
        decreases generations,
    {
        if generations == 0 {
            self
        } else {
            self.step().steps((generations - 1) as nat)
        }
    }

    /// The text that shows the grid: for each row the glyphs of its cells
    /// from left to right, then a line feed, also after the last row.
    pub open spec fn rendered(self) -> Seq<char> {
        Seq::new(
            (self.height * (self.width + 1)) as nat,
            |k: int|
                {
                    let row = k / (self.width + 1);
                    let column = k % (self.width + 1);
                    if column == self.width {
                        '\n'
                    } else {
                        self.cell(row, column).glyph()
                    }
                },
        )
    }

    /// The state of the cell at place `i` of the starting pattern: alive
    /// where `i` is a multiple of 2 or of 7.
    pub open spec fn seed(i: int) -> Cell {
        if i % 2 == 0 || i % 7 == 0 {
            Cell::Alive
        } else {
            Cell::Dead
        }
    }

    /// The grid that every new universe starts from: 64 rows of 64 columns
    /// filled with the starting pattern.
    pub open spec fn initial() -> Grid {
        Grid { width: 64, height: 64, cells: Seq::new(4096, |i: int| Grid::seed(i)) }
    }

    /// Every cell is dead.
    pub open spec fn all_dead(self) -> bool {
        forall|i: int| 0 <= i < self.cells.len() ==> self.cells[i] == Cell::Dead
    }
}

/// Every coordinate in range has a place in `cells`, and the place gives the
/// coordinate back: its quotient by the width is the row and its remainder the
/// column.
pub proof fn lemma_index_in_bounds(grid: Grid, row: int, column: int)
    requires
        grid.wf(),
        grid.in_range(row, column),
    ensures
        0 <= grid.index(row, column) < grid.cells.len(),
        grid.index(row, column) / grid.width == row,
        grid.index(row, column) % grid.width == column,
{
    let w = grid.width;
    let h = grid.height;
    assert(0 <= row * w && row * w + w <= h * w) by (nonlinear_arith)
        requires
            0 <= row < h,
            0 < w,
    ;
    lemma_fundamental_div_mod_converse(grid.index(row, column), w, row, column);
}

/// The rendered text has one line of `width + 1` characters per row. At
/// (`row`, `column`) stands the glyph of that cell, and after the last column
/// of each row, at column `width`, a line feed.
pub proof fn lemma_rendered_layout(grid: Grid, row: int, column: int)
    requires
        grid.wf(),
        0 <= row < grid.height,
        0 <= column <= grid.width,
    ensures
        grid.rendered().len() == grid.height * (grid.width + 1),
        0 <= row * (grid.width + 1) + column < grid.rendered().len(),
        grid.rendered()[row * (grid.width + 1) + column] == (if column == grid.width {
            '\n'
        } else {
            grid.cell(row, column).glyph()
        }),
{
    let line = grid.width + 1;
    let h = grid.height;
    assert(0 <= row * line && row * line + line <= h * line) by (nonlinear_arith)
        requires
            0 <= row < h,
            0 < line,
    ;
    lemma_fundamental_div_mod_converse(row * line + column, line, row, column);
}

} // verus!
