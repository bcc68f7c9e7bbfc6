//! What holds of every grid: laws of the index, of the neighbour count, of the
//! step and of the rendered text, each proved from the model in `grid`.

use vstd::prelude::*;
use vstd::arithmetic::div_mod::{
    lemma_add_mod_noop_right, lemma_mod_add_multiples_vanish, lemma_mod_bound, lemma_mod_self_0,
};
use crate::cell::Cell;
use crate::grid::{Grid, lemma_index_in_bounds};

verus! {

/// No two coordinates in range share a place in `cells`.
pub proof fn lemma_index_injective(grid: Grid, row1: int, column1: int, row2: int, column2: int)
    requires
        grid.wf(),
        grid.in_range(row1, column1),
        grid.in_range(row2, column2),
        grid.index(row1, column1) == grid.index(row2, column2),
    ensures
        row1 == row2,
        column1 == column2,
{
    lemma_index_in_bounds(grid, row1, column1);
    lemma_index_in_bounds(grid, row2, column2);
}

/// Every place in `cells` belongs to a coordinate in range: the one whose row
/// is the quotient of the place by the width and whose column is the
/// remainder.
pub proof fn lemma_index_surjective(grid: Grid, i: int)
    requires
        grid.wf(),
        0 <= i < grid.cells.len(),
    ensures
        grid.in_range(i / grid.width, i % grid.width),
        grid.index(i / grid.width, i % grid.width) == i,
{
    let w = grid.width;
    let h = grid.height;
    assert(i == (i / w) * w + i % w && 0 <= i % w < w) by (nonlinear_arith)
        requires
            0 < w,
    ;
    assert(0 <= i / w < h) by (nonlinear_arith)
        requires
            0 < w,
            0 <= i < w * h,
    ;
}

/// Each of the nine pairs of offsets leads from any coordinate to a cell of
/// the grid, and so adds 0 or 1 to the count.
pub proof fn lemma_neighbor_weight_bounds(
    grid: Grid,
    row: int,
    column: int,
    delta_row: int,
    delta_column: int,
)
    requires
        grid.wf(),
    ensures
        grid.in_range((row + delta_row) % grid.height, (column + delta_column) % grid.width),
        0 <= grid.neighbor_weight(row, column, delta_row, delta_column) <= 1,
{
    lemma_mod_bound(row + delta_row, grid.height);
    lemma_mod_bound(column + delta_column, grid.width);
}

/// The offsets `height - 1` and `width - 1` stand for one row up and one
/// column to the left: around the edges they lead to the same cell as -1.
pub proof fn lemma_last_offset_is_one_back(grid: Grid, row: int, column: int)
    requires
        grid.wf(),
    ensures
        (row + (grid.height - 1)) % grid.height == (row - 1) % grid.height,
        (column + (grid.width - 1)) % grid.width == (column - 1) % grid.width,
{
    lemma_mod_add_multiples_vanish(row - 1, grid.height);
    lemma_mod_add_multiples_vanish(column - 1, grid.width);
}

/// A coordinate past the last row or column counts the same neighbours as the
/// coordinate it wraps to.
pub proof fn lemma_live_neighbors_wrap(grid: Grid, row: int, column: int)
    requires
        grid.wf(),
    ensures
        grid.live_neighbors(row, column) == grid.live_neighbors(
            row % grid.height,
            column % grid.width,
        ),
{
    assert forall|delta_row: int, delta_column: int|
        grid.neighbor_weight(row, column, delta_row, delta_column) == #[trigger] grid.neighbor_weight(
            row % grid.height,
            column % grid.width,
            delta_row,
            delta_column,
        ) by {
        lemma_add_mod_noop_right(delta_row, row, grid.height);
        lemma_add_mod_noop_right(delta_column, column, grid.width);
    }
}

/// The count of live neighbours lies between 0 and 8, whatever the
/// coordinate.
pub proof fn lemma_live_neighbors_bounds(grid: Grid, row: int, column: int)
    requires
        grid.wf(),
    ensures
        0 <= grid.live_neighbors(row, column) <= 8,
{
}

/// In a grid of dead cells no cell has a live neighbour, and the next
/// generation is the same grid: nothing is born from nothing.
pub proof fn lemma_dead_grid_stays_dead(grid: Grid)
    requires
        grid.wf(),
        grid.all_dead(),
    ensures
        forall|row: int, column: int| #[trigger] grid.live_neighbors(row, column) == 0,
        grid.step() == grid,
        grid.step().all_dead(),
{
    assert forall|row: int, column: int| #[trigger] grid.live_neighbors(row, column) == 0 by {
        assert forall|delta_row: int, delta_column: int|
            #[trigger] grid.neighbor_weight(row, column, delta_row, delta_column) == 0 by {
            lemma_neighbor_weight_bounds(grid, row, column, delta_row, delta_column);
            lemma_index_in_bounds(
                grid,
                (row + delta_row) % grid.height,
                (column + delta_column) % grid.width,
            );
        }
    }
    assert(grid.step().cells =~= grid.cells);
}

/// The cell at the last row and last column has the cell at the first row
/// and first column among its neighbours, around both edges: where that cell
/// is alive, the count at the far corner is at least one.
pub proof fn lemma_far_corner_sees_origin(grid: Grid)
    requires
        grid.wf(),
        grid.cell(0, 0) == Cell::Alive,
    ensures
        grid.neighbor_weight(grid.height - 1, grid.width - 1, 1, 1) == 1,
        grid.live_neighbors(grid.height - 1, grid.width - 1) >= 1,
{
    lemma_mod_self_0(grid.height);
    lemma_mod_self_0(grid.width);
}

/// A step changes the cell at every coordinate by the rule of life, applied
/// to the cell and the count of its live neighbours before the step.
pub proof fn lemma_step_cell(grid: Grid, row: int, column: int)
    requires
        grid.wf(),
        grid.in_range(row, column),
    ensures
        grid.step().cell(row, column) == grid.cell(row, column).evolved(
            grid.live_neighbors(row, column),
        ),
{
    lemma_index_in_bounds(grid, row, column);
}

/// A step keeps the dimensions and the number of cells, so what was well
/// formed stays so.
pub proof fn lemma_step_keeps_shape(grid: Grid)
    requires
        grid.wf(),
    ensures
        grid.step().wf(),
        grid.step().width == grid.width,
        grid.step().height == grid.height,
        grid.step().cells.len() == grid.width * grid.height,
{
}

/// However many steps are taken, the dimensions stay what they were and the
/// number of cells stays `width * height`.
pub proof fn lemma_steps_keep_shape(grid: Grid, generations: nat)
    requires
        grid.wf(),
    ensures
        grid.steps(generations).wf(),
        grid.steps(generations).width == grid.width,
        grid.steps(generations).height == grid.height,
        grid.steps(generations).cells.len() == grid.width * grid.height,
    decreases generations,
{
    if generations > 0 {
        lemma_step_keeps_shape(grid);
        lemma_steps_keep_shape(grid.step(), (generations - 1) as nat);
    }
}

/// The rendered text is a function of the grid alone: two renderings of one
/// grid are the same text.
pub proof fn lemma_render_repeatable(grid: Grid, first: Seq<char>, second: Seq<char>)
    requires
        first == grid.rendered(),
        second == grid.rendered(),
    ensures
        first == second,
{
}

} // verus!
