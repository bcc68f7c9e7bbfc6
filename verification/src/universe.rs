//! The universe that runs: dimensions and cells held in machine integers and
//! a vector, every operation tied to the model in `grid`.

use vstd::prelude::*;
use crate::cell::Cell;
use crate::grid::{Grid, lemma_index_in_bounds, lemma_rendered_layout};

verus! {

/// A toroidal grid of cells that advances one generation at a time.
pub struct Universe {
    width: u32,
    height: u32,
    cells: Vec<Cell>,
}

impl View for Universe {
    type V = Grid;

    closed spec fn view(&self) -> Grid {
        Grid { width: self.width as int, height: self.height as int, cells: self.cells@ }
    }
}

/// The sum of `neighbor_weight` over the first `taken` column offsets.
spec fn row_weight_prefix(grid: Grid, row: int, column: int, delta_row: int, taken: int) -> int {
    (if taken > 0 {
        grid.neighbor_weight(row, column, delta_row, grid.width - 1)
    } else {
        0
    }) + (if taken > 1 {
        grid.neighbor_weight(row, column, delta_row, 0)
    } else {
        0
    }) + (if taken > 2 {
        grid.neighbor_weight(row, column, delta_row, 1)
    } else {
        0
    })
}

/// The sum of `row_weight` over the first `taken` row offsets.
spec fn live_neighbors_prefix(grid: Grid, row: int, column: int, taken: int) -> int {
    (if taken > 0 {
        grid.row_weight(row, column, grid.height - 1)
    } else {
        0
    }) + (if taken > 1 {
        grid.row_weight(row, column, 0)
    } else {
        0
    }) + (if taken > 2 {
        grid.row_weight(row, column, 1)
    } else {
        0
    })
}

impl Universe {
    #[verifier::type_invariant]
    spec fn inv(self) -> bool {
        self@.wf()
    }

    /// A universe of `height` rows and `width` columns whose cells are
    /// `cells`, row after row. There is none where a dimension is zero or the
    /// number of cells is not `width * height`.
    pub fn from_cells(width: u32, height: u32, cells: Vec<Cell>) -> (made: Option<Universe>)
        ensures
            made is Some <==> width >= 1 && height >= 1 && cells@.len() == width * height,
            made matches Some(universe) ==> universe@ == (Grid {
                width: width as int,
                height: height as int,
                cells: cells@,
            }) && universe@.wf(),
    {
        if width == 0 || height == 0 {
            return None;
        }
        assert(width * height <= 0xFFFF_FFFF * 0xFFFF_FFFF) by (nonlinear_arith)
            requires
                width <= 0xFFFF_FFFF,
                height <= 0xFFFF_FFFF,
        ;
        let area: u64 = width as u64 * height as u64;
        if cells.len() as u64 != area {
            return None;
        }
        Some(Universe { width, height, cells })
    }

    /// The number of columns.
    pub fn width(&self) -> (width: u32)
        ensures
            width == self@.width,
            self@.wf(),
    {
        proof {
            use_type_invariant(self);
        }
        self.width
    }

    /// The number of rows.
    pub fn height(&self) -> (height: u32)
        ensures
            height == self@.height,
            self@.wf(),
    {
        proof {
            use_type_invariant(self);
        }
        self.height
    }

    /// The cells, row after row.
    pub fn cells(&self) -> (cells: &Vec<Cell>)
        ensures
            cells@ == self@.cells,
            self@.wf(),
    {
        proof {
            use_type_invariant(self);
        }
        &self.cells
    }

    /// The place in `cells` of the cell at (`row`, `column`).
    pub fn get_index(&self, row: u32, column: u32) -> (index: usize)
        requires
            self@.in_range(row as int, column as int),
        ensures
            index == self@.index(row as int, column as int),
            index < self@.cells.len(),
    {
        proof {
            use_type_invariant(self);
            lemma_index_in_bounds(self@, row as int, column as int);
            assert(row * self.width <= self.cells.len()) by (nonlinear_arith)
                requires
                    0 <= row < self.height,
                    self.cells.len() == self.width * self.height,
            ;
        }
        row as usize * self.width as usize + column as usize
    }

    /// The number of live cells among the eight neighbours of the cell at
    /// (`row`, `column`), where the grid wraps around at its edges. A
    /// coordinate past the last row or column wraps around as well.
    pub fn live_neighbor_count(&self, row: u32, column: u32) -> (count: u8)
        ensures
            count == self@.live_neighbors(row as int, column as int),
            count <= 8,
    {
        proof {
            use_type_invariant(self);
        }
        let row_offsets: [u32; 3] = [self.height - 1, 0, 1];
        let column_offsets: [u32; 3] = [self.width - 1, 0, 1];
        let mut count: u8 = 0;
        let mut i: usize = 0;
        while i < 3
            invariant
                self@.wf(),
                i <= 3,
                row_offsets@ == seq![(self.height - 1) as u32, 0u32, 1u32],
                column_offsets@ == seq![(self.width - 1) as u32, 0u32, 1u32],
                count == live_neighbors_prefix(self@, row as int, column as int, i as int),
                count <= 3 * i,
            decreases 3 - i,
        {
            let delta_row = row_offsets[i];
            let ghost before = count;
            let mut j: usize = 0;
            while j < 3
                invariant
                    self@.wf(),
                    i < 3,
                    j <= 3,
                    delta_row == row_offsets@[i as int],
                    row_offsets@ == seq![(self.height - 1) as u32, 0u32, 1u32],
                    column_offsets@ == seq![(self.width - 1) as u32, 0u32, 1u32],
                    count == before + row_weight_prefix(
                        self@,
                        row as int,
                        column as int,
                        delta_row as int,
                        j as int,
                    ),
                    before <= 3 * i,
                    count <= before + j,
                decreases 3 - j,
            {
                let delta_column = column_offsets[j];
                if !(delta_row == 0 && delta_column == 0) {
                    let wrapped_row = (row as u64 + delta_row as u64) % (self.height as u64);
                    let wrapped_column = (column as u64 + delta_column as u64) % (self.width as u64);
                    let neighbor_row = wrapped_row as u32;
                    let neighbor_column = wrapped_column as u32;
                    let index = self.get_index(neighbor_row, neighbor_column);
                    count += self.cells[index].as_u8();
                }
                j += 1;
            }
            i += 1;
        }
        count
    }

    /// Advances the universe by one generation. Every cell's next state is
    /// computed from the generation that stood before the call.
    pub fn tick(&mut self)
        ensures
            final(self)@ == old(self)@.step(),
            final(self)@.wf(),
    {
        proof {
            use_type_invariant(&*self);
        }
        let mut next = self.cells.clone();
        let mut row: u32 = 0;
        while row < self.height
            invariant
                self@.wf(),
                self@ == old(self)@,
                row <= self.height,
                next@.len() == self@.cells.len(),
                forall|i: int|
                    0 <= i < row * self.width ==> next@[i] == #[trigger] self@.step().cells[i],
            decreases self.height - row,
        {
            let mut column: u32 = 0;
            while column < self.width
                invariant
                    self@.wf(),
                    self@ == old(self)@,
                    row < self.height,
                    column <= self.width,
                    next@.len() == self@.cells.len(),
                    forall|i: int|
                        0 <= i < row * self.width + column ==> next@[i]
                            == #[trigger] self@.step().cells[i],
                decreases self.width - column,
            {
                let index = self.get_index(row, column);
                let cell = self.cells[index];
                let live_neighbors = self.live_neighbor_count(row, column);
                let next_cell = cell.next_state(live_neighbors);
                proof {
                    lemma_index_in_bounds(self@, row as int, column as int);
                }
                next.set(index, next_cell);
                column += 1;
            }
            proof {
                assert((row + 1) * self.width == row * self.width + self.width)
                    by (nonlinear_arith);
            }
            row += 1;
        }
        proof {
            assert(self.height * self.width == self.width * self.height) by (nonlinear_arith);
            assert(next@ =~= self@.step().cells);
        }
        self.cells = next;
    }

    /// A universe of 64 rows and 64 columns filled with the starting pattern.
    pub fn new() -> (universe: Universe)
        ensures
            universe@ == Grid::initial(),
            universe@.wf(),
    {
        let width: u32 = 64;
        let height: u32 = 64;
        let mut cells: Vec<Cell> = Vec::new();
        let mut i: u32 = 0;
        while i < width * height
            invariant
                width == 64,
                height == 64,
                i <= 4096,
                cells@.len() == i,
                forall|k: int| 0 <= k < i ==> cells@[k] == Grid::seed(k),
            decreases 4096 - i,
        {
            let cell = if i % 2 == 0 || i % 7 == 0 {
                Cell::Alive
            } else {
                Cell::Dead
            };
            cells.push(cell);
            i += 1;
        }
        proof {
            assert(cells@ =~= Grid::initial().cells);
        }
        Universe { width, height, cells }
    }

    /// The grid as text: one line per row, one glyph per cell, each line
    /// ended by a line feed.
    pub fn render(&self) -> (text: String)
        ensures
            text@ == self@.rendered(),
    {
        proof {
            use_type_invariant(self);
        }
        let mut text = String::new();
        let mut row: u32 = 0;
        while row < self.height
            invariant
                self@.wf(),
                row <= self.height,
                text@ == self@.rendered().take(row * (self.width + 1)),
            decreases self.height - row,
        {
            let mut column: u32 = 0;
            while column < self.width
                invariant
                    self@.wf(),
                    row < self.height,
                    column <= self.width,
                    text@ == self@.rendered().take(row * (self.width + 1) + column),
                decreases self.width - column,
            {
                let index = self.get_index(row, column);
                proof {
                    lemma_rendered_layout(self@, row as int, column as int);
                }
                text.append(self.cells[index].symbol());
                column += 1;
            }
            proof {
                lemma_rendered_layout(self@, row as int, self.width as int);
                reveal_strlit("\n");
                assert((row + 1) * (self.width + 1) == row * (self.width + 1) + self.width + 1)
                    by (nonlinear_arith);
            }
            text.append("\n");
            row += 1;
        }
        text
    }
}

} // verus!
