use vstd::prelude::*;
use vstd::arithmetic::div_mod::{
    lemma_fundamental_div_mod, lemma_fundamental_div_mod_converse, lemma_mod_pos_bound,
};
use crate::cell::Cell;

verus! {

/// The classic rules, taken as ordered cases where the first match wins.
pub open spec fn next_state(cell: Cell, live: int) -> Cell {
    match cell {
        Cell::Alive => if live < 2 {
            Cell::Dead
        } else if live == 2 || live == 3 {
            Cell::Alive
        } else {
            Cell::Dead
        },
        Cell::Dead => if live == 3 {
            Cell::Alive
        } else {
            Cell::Dead
        },
    }
}

/// A grid of `width` columns and `height` rows whose cells are laid out row
/// by row: neither dimension is zero and every position has its cell.
pub open spec fn grid_shape(cells: Seq<Cell>, width: int, height: int) -> bool {
    &&& width > 0
    &&& height > 0
    &&& cells.len() == width * height
}

/// Position of the cell at `row` and `column` in the row-major layout.
pub open spec fn index_of(width: int, row: int, column: int) -> int {
    row * width + column
}

/// Coordinate `x` moved by offset `d` on a ring of `n` positions.
pub open spec fn wrapped(x: int, d: int, n: int) -> int {
    (x + d) % n
}

/// What the neighbour at offsets `dr` and `dc` (each in `{n - 1, 0, 1}` of its
/// dimension) adds to the count; the offset pair `(0, 0)` is the cell itself
/// and adds nothing.
pub open spec fn neighbor_weight(
    cells: Seq<Cell>,
    width: int,
    height: int,
    row: int,
    column: int,
    dr: int,
    dc: int,
) -> int {
    if dr == 0 && dc == 0 {
        0
    } else {
        cells[index_of(width, wrapped(row, dr, height), wrapped(column, dc, width))].weight()
    }
}

/// The live neighbours in the row at offset `dr`.
pub open spec fn row_neighbors(
    cells: Seq<Cell>,
    width: int,
    height: int,
    row: int,
    column: int,
    dr: int,
) -> int {
    neighbor_weight(cells, width, height, row, column, dr, width - 1)
        + neighbor_weight(cells, width, height, row, column, dr, 0)
        + neighbor_weight(cells, width, height, row, column, dr, 1)
}

/// The number of live cells among the eight toroidal neighbours of the cell
/// at `row` and `column`.
pub open spec fn live_neighbors(
    cells: Seq<Cell>,
    width: int,
    height: int,
    row: int,
    column: int,
) -> int {
    row_neighbors(cells, width, height, row, column, height - 1)
        + row_neighbors(cells, width, height, row, column, 0)
        + row_neighbors(cells, width, height, row, column, 1)
}

/// The next generation of the cell at position `i`.
pub open spec fn next_cell(cells: Seq<Cell>, width: int, height: int, i: int) -> Cell {
    next_state(cells[i], live_neighbors(cells, width, height, i / width, i % width))
}

/// The whole next generation, every cell computed from the current one.
pub open spec fn next_generation(cells: Seq<Cell>, width: int, height: int) -> Seq<Cell> {
    Seq::new(cells.len(), |i: int| next_cell(cells, width, height, i))
}

/// One byte per cell: 1 where the cell changed between `prev` and `next`,
/// 0 where it did not.
pub open spec fn change_report(prev: Seq<Cell>, next: Seq<Cell>) -> Seq<u8> {
    Seq::new(prev.len(), |i: int| if prev[i] == next[i] { 0u8 } else { 1u8 })
}

/// The state of a cell in the next generation, given its current state and
/// the number of its live neighbours.
pub fn next_cell_state(cell: Cell, live_neighbors: u8) -> (r: Cell)
    ensures
        r == next_state(cell, live_neighbors as int),
{
    match cell {
        Cell::Alive => {
            if live_neighbors < 2 {
                Cell::Dead
            } else if live_neighbors == 2 || live_neighbors == 3 {
                Cell::Alive
            } else {
                Cell::Dead
            }
        },
        Cell::Dead => {
            if live_neighbors == 3 {
                Cell::Alive
            } else {
                Cell::Dead
            }
        },
    }
}

/// The cell at `row` and `column` of the grid lies inside the buffer, and
/// its position maps back to that row and column.
pub proof fn lemma_index_in_grid(width: int, height: int, row: int, column: int)
    requires
        0 <= row < height,
        0 <= column < width,
    ensures
        0 <= index_of(width, row, column) < width * height,
        index_of(width, row, column) / width == row,
        index_of(width, row, column) % width == column,
{
    assert(0 <= row * width + column < width * height) by (nonlinear_arith)
        requires
            0 <= row < height,
            0 <= column < width,
    ;
    lemma_fundamental_div_mod_converse(row * width + column, width, row, column);
}

/// Every position of the buffer is the position of a row and column inside
/// the grid.
pub proof fn lemma_position_in_grid(width: int, height: int, i: int)
    requires
        width > 0,
        0 <= i < width * height,
    ensures
        0 <= i / width < height,
        0 <= i % width < width,
        index_of(width, i / width, i % width) == i,
{
    lemma_fundamental_div_mod(i, width);
    lemma_mod_pos_bound(i, width);
    let q = i / width;
    let r = i % width;
    assert(0 <= q < height) by (nonlinear_arith)
        requires
            i == width * q + r,
            0 <= r < width,
            0 <= i < width * height,
    ;
    assert(q * width == width * q) by (nonlinear_arith);
}

/// The next generation has the shape of the current one: same dimensions,
/// one cell per position; so has the change report.
pub proof fn lemma_shape_preserved(cells: Seq<Cell>, width: int, height: int)
    requires
        grid_shape(cells, width, height),
    ensures
        grid_shape(next_generation(cells, width, height), width, height),
        change_report(cells, next_generation(cells, width, height)).len() == width * height,
{
}

/// The change report holds only 0 and 1, and holds 1 exactly at the
/// positions where the two generations differ.
pub proof fn lemma_change_report_marks_changes(prev: Seq<Cell>, next: Seq<Cell>)
    requires
        prev.len() == next.len(),
    ensures
        change_report(prev, next).len() == prev.len(),
        forall|i: int|
            0 <= i < prev.len() ==> {
                &&& change_report(prev, next)[i] == 0 || change_report(prev, next)[i] == 1
                &&& change_report(prev, next)[i] == 1 <==> next[i] != prev[i]
            },
{
}

/// A grid with no live cell stays without one, and its change report is all
/// zeros.
pub proof fn lemma_empty_grid_stays_empty(cells: Seq<Cell>, width: int, height: int)
    requires
        grid_shape(cells, width, height),
        forall|i: int| 0 <= i < cells.len() ==> cells[i] == Cell::Dead,
    ensures
        forall|i: int|
            0 <= i < cells.len() ==> next_generation(cells, width, height)[i] == Cell::Dead,
        forall|i: int|
            0 <= i < cells.len() ==> change_report(cells, next_generation(cells, width, height))[i]
                == 0,
{
    assert forall|i: int| 0 <= i < cells.len() implies next_generation(cells, width, height)[i]
        == Cell::Dead by {
        lemma_position_in_grid(width, height, i);
        lemma_no_live_neighbors(cells, width, height, i / width, i % width);
    }
}

/// In a grid with no live cell, no cell has a live neighbour.
proof fn lemma_no_live_neighbors(cells: Seq<Cell>, width: int, height: int, row: int, column: int)
    requires
        grid_shape(cells, width, height),
        forall|i: int| 0 <= i < cells.len() ==> cells[i] == Cell::Dead,
        0 <= row < height,
        0 <= column < width,
    ensures
        live_neighbors(cells, width, height, row, column) == 0,
{
    assert forall|dr: int, dc: int| 0 <= dr && 0 <= dc implies neighbor_weight(
        cells,
        width,
        height,
        row,
        column,
        dr,
        dc,
    ) == 0 by {
        if !(dr == 0 && dc == 0) {
            let r = wrapped(row, dr, height);
            let c = wrapped(column, dc, width);
            lemma_mod_pos_bound(row + dr, height);
            lemma_mod_pos_bound(column + dc, width);
            lemma_index_in_grid(width, height, r, c);
        }
    }
}

/// A live cell with no live neighbour, or with five or more, is dead in the
/// next generation.
pub proof fn lemma_lonely_or_crowded_cell_dies(
    cells: Seq<Cell>,
    width: int,
    height: int,
    row: int,
    column: int,
)
    requires
        grid_shape(cells, width, height),
        0 <= row < height,
        0 <= column < width,
        cells[index_of(width, row, column)] == Cell::Alive,
        live_neighbors(cells, width, height, row, column) == 0
            || live_neighbors(cells, width, height, row, column) >= 5,
    ensures
        next_generation(cells, width, height)[index_of(width, row, column)] == Cell::Dead,
{
    lemma_index_in_grid(width, height, row, column);
}

} // verus!
