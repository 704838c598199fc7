//! The state of one grid position and the rule that decides its successor.

use vstd::prelude::*;

verus! {

/// One grid position: dead or alive.
#[derive(Clone, Copy, Debug, PartialEq, Eq, Structural)]
pub enum Cell {
    Dead,
    Alive,
}

impl Cell {
    /// The other state.
    pub open spec fn flipped(self) -> Cell {
        match self {
            Cell::Dead => Cell::Alive,
            Cell::Alive => Cell::Dead,
        }
    }

    /// What this cell adds to a neighbor count: 1 when alive, 0 when dead.
    pub open spec fn live(self) -> nat {
        match self {
            Cell::Dead => 0,
            Cell::Alive => 1,
        }
    }

    /// The state of this cell in the next generation, given the number of
    /// its live neighbors: a live cell survives with two or three of them,
    /// a dead cell is born with exactly three, and every other cell is dead.
    pub open spec fn next(self, live_neighbors: nat) -> Cell {
        match self {
            Cell::Alive => if live_neighbors == 2 || live_neighbors == 3 {
                Cell::Alive
            } else {
                Cell::Dead
            },
            Cell::Dead => if live_neighbors == 3 {
                Cell::Alive
            } else {
                Cell::Dead
            },
        }
    }

    /// The cell that the seed pattern puts at linear index `i`: alive where
    /// `i` is a multiple of 2 or of 7.
    pub open spec fn seed(i: int) -> Cell {
        if i % 2 == 0 || i % 7 == 0 {
            Cell::Alive
        } else {
            Cell::Dead
        }
    }

    /// Flips this cell between dead and alive.
    pub fn toggle(&mut self)
        ensures
            *final(self) == old(self).flipped(),
    {
        *self = match *self {
            Cell::Dead => Cell::Alive,
            Cell::Alive => Cell::Dead,
        };
    }
}

} // verus!
