//! The executable grid engine.

use crate::arith::{lemma_index_in_range, lemma_index_split};
use crate::cell::Cell;
use crate::grid::Grid;
use crate::laws::lemma_step_at;
use vstd::prelude::*;

verus! {

/// Width of the grid that [`World::new`] creates.
pub const DEFAULT_WIDTH: u32 = 64;

/// Height of the grid that [`World::new`] creates.
pub const DEFAULT_HEIGHT: u32 = 64;

/// A grid of fixed dimensions holding the current generation.
pub struct World {
    width: u32,
    height: u32,
    cells: Vec<Cell>,
}

impl View for World {
    type V = Grid;

    closed spec fn view(&self) -> Grid {
        Grid { width: self.width as nat, height: self.height as nat, cells: self.cells@ }
    }
}

impl World {
    /// Every world is a well-formed grid.
    #[verifier::type_invariant]
    pub open spec fn inv(&self) -> bool {
        self@.wf()
    }

    /// Creates the default grid, `DEFAULT_WIDTH` by `DEFAULT_HEIGHT`, with
    /// the seed pattern: the cell at linear index `i` is alive where `i` is a
    /// multiple of 2 or of 7.
    pub fn new() -> (world: World)
        ensures
            world@ == Grid::seeded(DEFAULT_WIDTH as nat, DEFAULT_HEIGHT as nat),
            world@.wf(),
            world@.width == DEFAULT_WIDTH,
            world@.height == DEFAULT_HEIGHT,
            world@.cells.len() == DEFAULT_WIDTH * DEFAULT_HEIGHT,
            forall|i: int|
                0 <= i < DEFAULT_WIDTH * DEFAULT_HEIGHT ==> (world@.cells[i] == Cell::Alive <==> i
                    % 2 == 0 || i % 7 == 0),
    {
        let width: u32 = DEFAULT_WIDTH;
        let height: u32 = DEFAULT_HEIGHT;
        let mut cells: Vec<Cell> = Vec::new();
        for i in 0..width * height
            invariant
                width == DEFAULT_WIDTH,
                height == DEFAULT_HEIGHT,
                cells@.len() == i,
                forall|k: int| 0 <= k < i ==> cells@[k] == Cell::seed(k),
        {
            cells.push(
                if i % 2 == 0 || i % 7 == 0 {
                    Cell::Alive
                } else {
                    Cell::Dead
                },
            );
        }
        assert(cells@ =~= Grid::seeded(width as nat, height as nat).cells);
        World { width, height, cells }
    }

    /// Creates a grid of the given dimensions from its cells in row-major
    /// order. There is such a grid exactly when both dimensions are positive
    /// and `cells` holds `width * height` cells.
    pub fn from_cells(width: u32, height: u32, cells: Vec<Cell>) -> (world: Option<World>)
        ensures
            world.is_some() <==> width > 0 && height > 0 && cells@.len() == width * height,
            world matches Some(w) ==> w@ == (Grid {
                width: width as nat,
                height: height as nat,
                cells: cells@,
            }) && w@.wf(),
    {
        if width == 0 || height == 0 {
            return None;
        }
        assert(width * height <= u64::MAX) by (nonlinear_arith)
            requires
                width <= u32::MAX,
                height <= u32::MAX,
        ;
        if cells.len() as u64 != width as u64 * height as u64 {
            return None;
        }
        Some(World { width, height, cells })
    }

    /// The number of columns.
    pub fn width(&self) -> (width: u32)
        ensures
            width == self@.width,
    {
        self.width
    }

    /// The number of rows.
    pub fn height(&self) -> (height: u32)
        ensures
            height == self@.height,
    {
        self.height
    }

    /// The place of the cell at `(row, col)` in [`World::cells`].
    pub fn get_idx(&self, row: u32, col: u32) -> (idx: usize)
        requires
            self@.in_bounds(row as int, col as int),
        ensures
            idx == self@.index_of(row as int, col as int),
            idx < self@.cells.len(),
    {
        proof {
            use_type_invariant(self);
            lemma_index_in_range(row as int, col as int, self.width as int, self.height as int);
            assert(self.cells@.len() == self.cells.len());
        }
        row as usize * self.width as usize + col as usize
    }

    /// Counts the live cells among the toroidally wrapped neighbors of
    /// `(row, column)`.
    pub fn live_neighbor_count(&self, row: u32, column: u32) -> (count: u8)
        requires
            self@.in_bounds(row as int, column as int),
        ensures
            count == self@.live_neighbors(row as int, column as int),
            count <= 8,
    {
        proof {
            use_type_invariant(self);
        }
        let delta_rows: [u32; 3] = [self.height - 1, 0, 1];
        let delta_cols: [u32; 3] = [self.width - 1, 0, 1];
        let mut count: u8 = 0;
        for i in 0..3usize
            invariant
                self@.wf(),
                self@.in_bounds(row as int, column as int),
                forall|k: int| 0 <= k < 3 ==> delta_rows@[k] == delta(self@.height, k),
                forall|k: int| 0 <= k < 3 ==> delta_cols@[k] == delta(self@.width, k),
                count == rows_done(self@, row as int, column as int, i as int),
                count <= 3 * i,
        {
            for j in 0..3usize
                invariant
                    i < 3,
                    self@.wf(),
                    self@.in_bounds(row as int, column as int),
                    forall|k: int| 0 <= k < 3 ==> delta_rows@[k] == delta(self@.height, k),
                    forall|k: int| 0 <= k < 3 ==> delta_cols@[k] == delta(self@.width, k),
                    count == rows_done(self@, row as int, column as int, i as int) + cols_done(
                        self@,
                        row as int,
                        column as int,
                        delta(self@.height, i as int),
                        j as int,
                    ),
                    count <= 3 * i + j,
            {
                let delta_row = delta_rows[i];
                let delta_col = delta_cols[j];
                if !(delta_row == 0 && delta_col == 0) {
                    let neighbor_row = ((row as u64 + delta_row as u64) % (self.height as u64)) as u32;
                    let neighbor_col = ((column as u64 + delta_col as u64) % (self.width as u64)) as u32;
                    let idx = self.get_idx(neighbor_row, neighbor_col);
                    match self.cells[idx] {
                        Cell::Alive => {
                            count += 1;
                        },
                        Cell::Dead => {},
                    }
                }
            }
        }
        count
    }

    /// Advances the grid by one generation.
    ///
    /// Every cell of the new generation is decided by the rule of
    /// [`Cell::next`] from the cell and its neighbors in the old generation;
    /// the new cells are gathered apart and replace the old ones together.
    pub fn tick(&mut self)
        ensures
            final(self)@ == old(self)@.step(),
            final(self)@.wf(),
            final(self)@.width == old(self)@.width,
            final(self)@.height == old(self)@.height,
            forall|row: int, col: int|
                old(self)@.in_bounds(row, col) ==> #[trigger] final(self)@.at(row, col) == old(
                    self,
                )@.next_at(row, col),
    {
        proof {
            use_type_invariant(&*self);
        }
        let mut next = self.cells.clone();
        for row in 0..self.height
            invariant
                *self == *old(self),
                self@.wf(),
                next@.len() == self@.cells.len(),
                forall|k: int|
                    0 <= k < row * self@.width ==> next@[k] == self@.next_at(
                        k / (self@.width as int),
                        k % (self@.width as int),
                    ),
        {
            for col in 0..self.width
                invariant
                    *self == *old(self),
                    self@.wf(),
                    row < self@.height,
                    next@.len() == self@.cells.len(),
                    forall|k: int|
                        0 <= k < row * self@.width + col ==> next@[k] == self@.next_at(
                            k / (self@.width as int),
                            k % (self@.width as int),
                        ),
            {
                let idx = self.get_idx(row, col);
                let cell = self.cells[idx];
                let neighbors_count = self.live_neighbor_count(row, col);
                let next_cell = match (cell, neighbors_count) {
                    (Cell::Alive, 0 | 1) => Cell::Dead,
                    (Cell::Alive, 2 | 3) => Cell::Alive,
                    (Cell::Alive, _) => Cell::Dead,
                    (Cell::Dead, 3) => Cell::Alive,
                    _ => Cell::Dead,
                };
                proof {
                    lemma_index_split(row as int, col as int, self.width as int);
                }
                next.set(idx, next_cell);
            }
            assert((row + 1) * self@.width == row * self@.width + self@.width) by (nonlinear_arith);
        }
        assert(self@.height * self@.width == self@.width * self@.height) by (nonlinear_arith);
        assert(next@ =~= self@.step().cells);
        proof {
            assert forall|row: int, col: int| self@.in_bounds(row, col) implies #[trigger] self@.step().at(
                row,
                col,
            ) == self@.next_at(row, col) by {
                lemma_step_at(self@, row, col);
            }
        }
        self.cells = next;
    }

    /// Flips the cell at `(row, column)` and leaves every other cell as it
    /// is.
    pub fn toggle_cell(&mut self, row: u32, column: u32)
        requires
            old(self)@.in_bounds(row as int, column as int),
        ensures
            final(self)@ == old(self)@.toggled(row as int, column as int),
            final(self)@.wf(),
            final(self)@.width == old(self)@.width,
            final(self)@.height == old(self)@.height,
            final(self)@.cells.len() == old(self)@.cells.len(),
            final(self)@.at(row as int, column as int) == old(self)@.at(
                row as int,
                column as int,
            ).flipped(),
            forall|i: int|
                0 <= i < old(self)@.cells.len() && i != old(self)@.index_of(
                    row as int,
                    column as int,
                ) ==> final(self)@.cells[i] == old(self)@.cells[i],
    {
        proof {
            use_type_invariant(&*self);
        }
        let idx = self.get_idx(row, column);
        self.cells[idx].toggle();
    }

    /// The current generation in row-major order.
    pub fn cells(&self) -> (cells: &Vec<Cell>)
        ensures
            cells@ == self@.cells,
    {
        &self.cells
    }
}

/// The wrap delta at place `i` of the list `[n - 1, 0, 1]`: one back, none,
/// one forward along an axis of length `n`.
spec fn delta(n: nat, i: int) -> int {
    if i == 0 {
        n - 1
    } else if i == 1 {
        0
    } else {
        1
    }
}

/// The share of `g.neighbors_in_row(row, col, delta_row)` that the first `j`
/// column deltas make up.
spec fn cols_done(g: Grid, row: int, col: int, delta_row: int, j: int) -> nat {
    (if j > 0 { g.neighbor(row, col, delta_row, delta(g.width, 0)) } else { 0 })
        + (if j > 1 { g.neighbor(row, col, delta_row, delta(g.width, 1)) } else { 0 })
        + (if j > 2 { g.neighbor(row, col, delta_row, delta(g.width, 2)) } else { 0 })
}

/// The share of `g.live_neighbors(row, col)` that the first `i` row deltas
/// make up.
spec fn rows_done(g: Grid, row: int, col: int, i: int) -> nat {
    (if i > 0 { g.neighbors_in_row(row, col, delta(g.height, 0)) } else { 0 })
        + (if i > 1 { g.neighbors_in_row(row, col, delta(g.height, 1)) } else { 0 })
        + (if i > 2 { g.neighbors_in_row(row, col, delta(g.height, 2)) } else { 0 })
}

} // verus!
