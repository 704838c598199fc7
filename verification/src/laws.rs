//! Laws of the model: what holds of every well-formed grid.

use crate::arith::{lemma_index_in_range, lemma_index_join, lemma_index_split, lemma_wrap};
use crate::cell::Cell;
use crate::grid::Grid;
use vstd::prelude::*;

verus! {

impl Grid {
    /// `(row, col)` lies in the 2 by 2 block whose upper left corner is
    /// `(top, left)`. The block reaches one row down and one column to the
    /// right of its corner, around the edge of the grid where the corner lies
    /// on the last row or column.
    pub open spec fn in_block(self, top: int, left: int, row: int, col: int) -> bool {
        &&& row == top || row == (top + 1) % (self.height as int)
        &&& col == left || col == (left + 1) % (self.width as int)
    }

    /// The live cells of this grid are exactly the 2 by 2 block at
    /// `(top, left)`.
    pub open spec fn is_lone_block(self, top: int, left: int) -> bool {
        forall|row: int, col: int|
            self.in_bounds(row, col) ==> (#[trigger] self.at(row, col) == Cell::Alive
                <==> self.in_block(top, left, row, col))
    }
}

/// A step keeps the dimensions, and the cell at every position of the next
/// generation is the successor of the cell at that position, decided from
/// the neighbors it has in the current generation.
pub proof fn lemma_step_at(g: Grid, row: int, col: int)
    requires
        g.wf(),
        g.in_bounds(row, col),
    ensures
        g.step().wf(),
        g.step().width == g.width,
        g.step().height == g.height,
        g.step().at(row, col) == g.next_at(row, col),
{
    lemma_index_in_range(row, col, g.width as int, g.height as int);
    lemma_index_split(row, col, g.width as int);
}

/// The rule of the game, case by case, for the cell at any position: a live
/// cell with fewer than two live neighbors dies, one with two or three lives
/// on, one with four or more dies; a dead cell with exactly three live
/// neighbors comes alive, and any other dead cell stays dead.
pub proof fn lemma_rule_cases(g: Grid, row: int, col: int)
    requires
        g.wf(),
        g.in_bounds(row, col),
    ensures
        g.at(row, col) == Cell::Alive && g.live_neighbors(row, col) < 2 ==> g.step().at(row, col)
            == Cell::Dead,
        g.at(row, col) == Cell::Alive && 2 <= g.live_neighbors(row, col) <= 3 ==> g.step().at(
            row,
            col,
        ) == Cell::Alive,
        g.at(row, col) == Cell::Alive && g.live_neighbors(row, col) >= 4 ==> g.step().at(row, col)
            == Cell::Dead,
        g.at(row, col) == Cell::Dead && g.live_neighbors(row, col) == 3 ==> g.step().at(row, col)
            == Cell::Alive,
        g.at(row, col) == Cell::Dead && g.live_neighbors(row, col) != 3 ==> g.step().at(row, col)
            == Cell::Dead,
{
    lemma_step_at(g, row, col);
}

/// A toggle flips the cell at its position and changes the cell at no other
/// position.
pub proof fn lemma_toggle_at(g: Grid, row: int, col: int, other_row: int, other_col: int)
    requires
        g.wf(),
        g.in_bounds(row, col),
        g.in_bounds(other_row, other_col),
    ensures
        g.toggled(row, col).wf(),
        g.toggled(row, col).at(row, col) == g.at(row, col).flipped(),
        (other_row != row || other_col != col) ==> g.toggled(row, col).at(other_row, other_col)
            == g.at(other_row, other_col),
{
    lemma_index_in_range(row, col, g.width as int, g.height as int);
    lemma_index_in_range(other_row, other_col, g.width as int, g.height as int);
    lemma_index_split(row, col, g.width as int);
    lemma_index_split(other_row, other_col, g.width as int);
}

/// In a grid whose live cells are exactly one 2 by 2 block, a cell of the
/// block has three live neighbors and a cell outside it has none, one, two
/// or four, provided both dimensions are at least 3.
proof fn lemma_block_neighbors(g: Grid, top: int, left: int, row: int, col: int)
    requires
        g.wf(),
        g.width >= 3,
        g.height >= 3,
        g.in_bounds(top, left),
        g.in_bounds(row, col),
        g.is_lone_block(top, left),
    ensures
        g.in_block(top, left, row, col) ==> g.live_neighbors(row, col) == 3,
        !g.in_block(top, left, row, col) ==> g.live_neighbors(row, col) != 3,
{
    let w = g.width as int;
    let h = g.height as int;
    lemma_wrap(row, h);
    lemma_wrap(col, w);
    lemma_wrap(top, h);
    lemma_wrap(left, w);
    let up = (row + (h - 1)) % h;
    let down = (row + 1) % h;
    let west = (col + (w - 1)) % w;
    let east = (col + 1) % w;
    assert(g.at(up, west) == Cell::Alive <==> g.in_block(top, left, up, west));
    assert(g.at(up, col) == Cell::Alive <==> g.in_block(top, left, up, col));
    assert(g.at(up, east) == Cell::Alive <==> g.in_block(top, left, up, east));
    assert(g.at(row, west) == Cell::Alive <==> g.in_block(top, left, row, west));
    assert(g.at(row, east) == Cell::Alive <==> g.in_block(top, left, row, east));
    assert(g.at(down, west) == Cell::Alive <==> g.in_block(top, left, down, west));
    assert(g.at(down, col) == Cell::Alive <==> g.in_block(top, left, down, col));
    assert(g.at(down, east) == Cell::Alive <==> g.in_block(top, left, down, east));
}

/// The block is a still life: a grid whose live cells are exactly one 2 by 2
/// block, in a grid wide and high enough for the block to be surrounded by
/// dead cells, is its own next generation, and so it is after two steps.
pub proof fn lemma_block_is_still(g: Grid, top: int, left: int)
    requires
        g.wf(),
        g.width >= 3,
        g.height >= 3,
        g.in_bounds(top, left),
        g.is_lone_block(top, left),
    ensures
        g.step() == g,
        g.step().step() == g,
{
    let next = g.step();
    assert forall|i: int| 0 <= i < g.cells.len() implies next.cells[i] == g.cells[i] by {
        let row = i / (g.width as int);
        let col = i % (g.width as int);
        lemma_index_join(i, g.width as int, g.height as int);
        lemma_block_neighbors(g, top, left, row, col);
    }
    assert(next.cells =~= g.cells);
}

} // verus!
