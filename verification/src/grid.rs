//! The mathematical model of a generation.
//!
//! A [`Grid`] is a value of the specification language: two dimensions and
//! a sequence of cells in row-major order. The neighbor count, the successor
//! of a cell, the next generation and the effect of a toggle are defined
//! here once, as functions of that value, and the executable operations are
//! specified against them.

use crate::cell::Cell;
use vstd::prelude::*;

verus! {

/// One generation: `cells[row * width + col]` is the cell in row `row` and
/// column `col`.
pub struct Grid {
    pub width: nat,
    pub height: nat,
    pub cells: Seq<Cell>,
}

impl Grid {
    /// Both dimensions are positive and there is exactly one cell for every
    /// position.
    pub open spec fn wf(self) -> bool {
        &&& self.width > 0
        &&& self.height > 0
        &&& self.cells.len() == self.width * self.height
    }

    /// `(row, col)` names a position of this grid.
    pub open spec fn in_bounds(self, row: int, col: int) -> bool {
        0 <= row < self.height && 0 <= col < self.width
    }

    /// The place of `(row, col)` in the row-major cell sequence.
    pub open spec fn index_of(self, row: int, col: int) -> int {
        row * self.width + col
    }

    /// The cell at `(row, col)`.
    pub open spec fn at(self, row: int, col: int) -> Cell {
        self.cells[self.index_of(row, col)]
    }

    /// What the position reached from `(row, col)` by the wrap deltas
    /// `(delta_row, delta_col)` adds to the neighbor count of `(row, col)`.
    ///
    /// A delta is added to the coordinate and the sum is reduced modulo the
    /// dimension, so that the grid closes on itself along both axes. The
    /// pair `(0, 0)` stands for the cell itself and adds nothing.
    pub open spec fn neighbor(self, row: int, col: int, delta_row: int, delta_col: int) -> nat {
        if delta_row == 0 && delta_col == 0 {
            0
        } else {
            self.at(
                (row + delta_row) % (self.height as int),
                (col + delta_col) % (self.width as int),
            ).live()
        }
    }

    /// The live cells among the three positions that the row delta
    /// `delta_row` and the column deltas `width - 1` (one to the left), `0`
    /// and `1` (one to the right) reach from `(row, col)`.
    pub open spec fn neighbors_in_row(self, row: int, col: int, delta_row: int) -> nat {
        self.neighbor(row, col, delta_row, self.width - 1)
            + self.neighbor(row, col, delta_row, 0)
            + self.neighbor(row, col, delta_row, 1)
    }

    /// The number of live neighbors of `(row, col)` on the torus: the live
    /// cells reached by the row deltas `height - 1` (one up), `0` and `1`
    /// (one down), each combined with the three column deltas.
    ///
    /// On a grid with both dimensions at least 2 these are the eight
    /// positions around the cell. Where a dimension is 1, its delta
    /// `dimension - 1` is itself 0, and the pairs that then read `(0, 0)`
    /// add nothing either.
    pub open spec fn live_neighbors(self, row: int, col: int) -> nat {
        self.neighbors_in_row(row, col, self.height - 1)
            + self.neighbors_in_row(row, col, 0)
            + self.neighbors_in_row(row, col, 1)
    }

    /// The cell at `(row, col)` one generation later.
    pub open spec fn next_at(self, row: int, col: int) -> Cell {
        self.at(row, col).next(self.live_neighbors(row, col))
    }

    /// The next generation: every cell is replaced by its successor, and
    /// every successor is computed from this generation.
    pub open spec fn step(self) -> Grid {
        Grid {
            width: self.width,
            height: self.height,
            cells: Seq::new(
                self.cells.len(),
                |i: int| self.next_at(i / (self.width as int), i % (self.width as int)),
            ),
        }
    }

    /// This generation with the cell at `(row, col)` flipped.
    pub open spec fn toggled(self, row: int, col: int) -> Grid {
        Grid {
            width: self.width,
            height: self.height,
            cells: self.cells.update(self.index_of(row, col), self.at(row, col).flipped()),
        }
    }

    /// The seed pattern on a grid of the given dimensions: the cell at
    /// linear index `i` is `Cell::seed(i)`.
    pub open spec fn seeded(width: nat, height: nat) -> Grid {
        Grid { width, height, cells: Seq::new(width * height, |i: int| Cell::seed(i)) }
    }
}

} // verus!
