use vstd::prelude::*;
use crate::cell::Cell;
use crate::seed::gen_range;
use crate::rules::{
    change_report, grid_shape, index_of, lemma_index_in_grid, live_neighbors, neighbor_weight, next_cell,
    next_cell_state, next_generation, row_neighbors, wrapped,
};

verus! {

/// A fixed-size toroidal grid of cells, stored row by row.
pub struct Universe {
    width: u32,
    height: u32,
    cells: Vec<Cell>,
}

/// The cell that a draw from `{0, 1}` seeds: 1 gives a live cell, anything
/// else a dead one.
pub fn cell_from_draw(draw: u32) -> (r: Cell)
    ensures
        r == (if draw == 1 {
            Cell::Alive
        } else {
            Cell::Dead
        }),
{
    match draw {
        1 => Cell::Alive,
        _ => Cell::Dead,
    }
}

impl Universe {
    /// The number of columns.
    pub closed spec fn spec_width(&self) -> int {
        self.width as int
    }

    /// The number of rows.
    pub closed spec fn spec_height(&self) -> int {
        self.height as int
    }

    /// The current generation, row by row.
    pub closed spec fn spec_cells(&self) -> Seq<Cell> {
        self.cells@
    }

    /// The grid's invariant: both dimensions are positive and there is one
    /// cell per position.
    pub open spec fn wf(&self) -> bool {
        grid_shape(self.spec_cells(), self.spec_width(), self.spec_height())
    }

    /// The number of columns, fixed for the grid's life.
    pub fn width(&self) -> (r: u32)
        ensures
            r as int == self.spec_width(),
    {
        self.width
    }

    /// The number of rows, fixed for the grid's life.
    pub fn height(&self) -> (r: u32)
        ensures
            r as int == self.spec_height(),
    {
        self.height
    }

    /// The current generation as a read-only view of the grid's buffer.
    pub fn cells(&self) -> (r: &[Cell])
        requires
            self.wf(),
        ensures
            r@ == self.spec_cells(),
            r@.len() == self.spec_width() * self.spec_height(),
    {
        self.cells.as_slice()
    }

    fn get_index(&self, row: u32, column: u32) -> (r: usize)
        requires
            self.wf(),
            row < self.spec_height(),
            column < self.spec_width(),
        ensures
            r as int == index_of(self.spec_width(), row as int, column as int),
            r < self.spec_cells().len(),
    {
        let len = self.cells.len();
        proof {
            lemma_index_in_grid(self.width as int, self.height as int, row as int, column as int);
            assert(row as int * self.width as int <= index_of(self.width as int, row as int, column as int));
            assert(index_of(self.width as int, row as int, column as int) < len);
        }
        row as usize * self.width as usize + column as usize
    }

    /// Coordinate `x` moved by offset `d` on a ring of `n` positions.
    fn wrap(x: u32, d: u32, n: u32) -> (r: u32)
        requires
            n > 0,
        ensures
            r as int == wrapped(x as int, d as int, n as int),
            r < n,
    {
        ((x as u64 + d as u64) % n as u64) as u32
    }

    /// What the neighbour at offsets `dr` and `dc` adds to the count.
    fn neighbor_weight(&self, row: u32, column: u32, dr: u32, dc: u32) -> (r: u8)
        requires
            self.wf(),
            row < self.spec_height(),
            column < self.spec_width(),
        ensures
            r as int == neighbor_weight(
                self.spec_cells(),
                self.spec_width(),
                self.spec_height(),
                row as int,
                column as int,
                dr as int,
                dc as int,
            ),
            r <= 1,
    {
        if dr == 0 && dc == 0 {
            0
        } else {
            let neighbor_row = Self::wrap(row, dr, self.height);
            let neighbor_column = Self::wrap(column, dc, self.width);
            let idx = self.get_index(neighbor_row, neighbor_column);
            self.cells[idx].to_byte()
        }
    }

    /// The live neighbours in the row at offset `dr`.
    fn row_neighbors(&self, row: u32, column: u32, dr: u32) -> (r: u8)
        requires
            self.wf(),
            row < self.spec_height(),
            column < self.spec_width(),
        ensures
            r as int == row_neighbors(
                self.spec_cells(),
                self.spec_width(),
                self.spec_height(),
                row as int,
                column as int,
                dr as int,
            ),
            r <= 3,
    {
        self.neighbor_weight(row, column, dr, self.width - 1) + self.neighbor_weight(
            row,
            column,
            dr,
            0,
        ) + self.neighbor_weight(row, column, dr, 1)
    }

    /// The number of live cells among the eight toroidal neighbours of the
    /// cell at `row` and `column`.
    pub fn live_neighbor_count(&self, row: u32, column: u32) -> (r: u8)
        requires
            self.wf(),
            row < self.spec_height(),
            column < self.spec_width(),
        ensures
            r as int == live_neighbors(
                self.spec_cells(),
                self.spec_width(),
                self.spec_height(),
                row as int,
                column as int,
            ),
    {
        self.row_neighbors(row, column, self.height - 1) + self.row_neighbors(row, column, 0)
            + self.row_neighbors(row, column, 1)
    }

    /// Advances the grid by one generation and reports, one byte per cell,
    /// which cells changed: 1 where a cell flipped, 0 where it kept its state.
    /// Every cell's next state is computed from the generation before the call.
    pub fn tick(&mut self) -> (delta: Vec<u8>)
        requires
            old(self).wf(),
        ensures
            final(self).wf(),
            final(self).spec_width() == old(self).spec_width(),
            final(self).spec_height() == old(self).spec_height(),
            final(self).spec_cells() == next_generation(
                old(self).spec_cells(),
                old(self).spec_width(),
                old(self).spec_height(),
            ),
            delta@ == change_report(old(self).spec_cells(), final(self).spec_cells()),
            delta@.len() == old(self).spec_width() * old(self).spec_height(),
            forall|i: int|
                0 <= i < delta@.len() ==> {
                    &&& delta@[i] == 0 || delta@[i] == 1
                    &&& delta@[i] == 1 <==> final(self).spec_cells()[i] != old(self).spec_cells()[i]
                },
    {
        let ghost prev = self.cells@;
        let ghost w = self.width as int;
        let ghost h = self.height as int;
        let mut next: Vec<Cell> = Vec::new();
        let mut delta: Vec<u8> = Vec::new();
        let mut row: u32 = 0;
        while row < self.height
            invariant
                self.wf(),
                self.cells@ == prev,
                self.width == w,
                self.height == h,
                row <= h,
                row * w <= prev.len(),
                next@.len() == row * w,
                delta@.len() == row * w,
                forall|i: int| 0 <= i < next@.len() ==> next@[i] == next_cell(prev, w, h, i),
                forall|i: int|
                    0 <= i < delta@.len() ==> delta@[i] == (if prev[i] == next@[i] {
                        0u8
                    } else {
                        1u8
                    }),
            decreases h - row,
        {
            proof {
                assert(row * w + w <= w * h) by (nonlinear_arith)
                    requires
                        0 <= row < h,
                        w > 0,
                ;
            }
            let mut column: u32 = 0;
            while column < self.width
                invariant
                    row * w + w <= prev.len(),
                    self.wf(),
                    self.cells@ == prev,
                    self.width == w,
                    self.height == h,
                    row < h,
                    column <= w,
                    next@.len() == row * w + column,
                    delta@.len() == row * w + column,
                    forall|i: int| 0 <= i < next@.len() ==> next@[i] == next_cell(prev, w, h, i),
                    forall|i: int|
                        0 <= i < delta@.len() ==> delta@[i] == (if prev[i] == next@[i] {
                            0u8
                        } else {
                            1u8
                        }),
                decreases w - column,
            {
                let idx = self.get_index(row, column);
                proof {
                    lemma_index_in_grid(w, h, row as int, column as int);
                }
                let cell = self.cells[idx];
                let live = self.live_neighbor_count(row, column);
                let next_state = next_cell_state(cell, live);
                delta.push(if cell == next_state { 0u8 } else { 1u8 });
                next.push(next_state);
                column += 1;
            }
            proof {
                assert((row + 1) * w == row * w + w) by (nonlinear_arith);
                assert((row + 1) * w <= w * h) by (nonlinear_arith)
                    requires
                        0 <= row < h,
                        w > 0,
                ;
            }
            row += 1;
        }
        proof {
            assert(row * w == w * h) by (nonlinear_arith)
                requires
                    row == h,
            ;
            assert(next@ =~= next_generation(prev, w, h));
            assert(delta@ =~= change_report(prev, next@));
        }
        self.cells = next;
        delta
    }

    /// A grid of the given size holding `cells`, laid out row by row; `None`
    /// when a dimension is zero or `cells` does not have one cell per position.
    pub fn from_cells(height: u32, width: u32, cells: Vec<Cell>) -> (r: Option<Universe>)
        ensures
            r is Some <==> grid_shape(cells@, width as int, height as int),
            r matches Some(u) ==> {
                &&& u.wf()
                &&& u.spec_width() == width
                &&& u.spec_height() == height
                &&& u.spec_cells() == cells@
            },
    {
        if width == 0 || height == 0 {
            return None;
        }
        proof {
            assert(width as int * height as int <= u64::MAX) by (nonlinear_arith)
                requires
                    width <= u32::MAX,
                    height <= u32::MAX,
            ;
        }
        let size: u64 = width as u64 * height as u64;
        if cells.len() as u64 != size {
            return None;
        }
        Some(Universe { width, height, cells })
    }

    /// A grid of `height` rows and `width` columns whose cells are each seeded
    /// alive or dead by an independent fair coin flip.
    pub fn new(height: u32, width: u32) -> (r: Universe)
        requires
            width > 0,
            height > 0,
            width * height <= usize::MAX,
        ensures
            r.wf(),
            r.spec_width() == width,
            r.spec_height() == height,
    {
        let size: usize = width as usize * height as usize;
        let mut rng = rand::thread_rng();
        let mut cells: Vec<Cell> = Vec::new();
        let mut i: usize = 0;
        while i < size
            invariant
                i <= size,
                cells@.len() == i,
            decreases size - i,
        {
            cells.push(cell_from_draw(gen_range(&mut rng, 0, 2)));
            i += 1;
        }
        Universe { width, height, cells }
    }
}

/// Two grids that hold the same generation at the same size advance to the
/// same next generation and report the same changes, whichever ticks first.
pub proof fn lemma_tick_deterministic(a: Universe, b: Universe)
    requires
        a.wf(),
        b.wf(),
        a.spec_width() == b.spec_width(),
        a.spec_height() == b.spec_height(),
        a.spec_cells() == b.spec_cells(),
    ensures
        next_generation(a.spec_cells(), a.spec_width(), a.spec_height()) == next_generation(
            b.spec_cells(),
            b.spec_width(),
            b.spec_height(),
        ),
        change_report(
            a.spec_cells(),
            next_generation(a.spec_cells(), a.spec_width(), a.spec_height()),
        ) == change_report(
            b.spec_cells(),
            next_generation(b.spec_cells(), b.spec_width(), b.spec_height()),
        ),
{
}

} // verus!
