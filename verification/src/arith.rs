//! Arithmetic behind row-major indexing.

use vstd::prelude::*;

verus! {

/// A position inside a `height` by `width` grid has a row-major index
/// inside the cell sequence.
pub proof fn lemma_index_in_range(row: int, col: int, width: int, height: int)
    by (nonlinear_arith)
    requires
        0 <= row < height,
        0 <= col < width,
    ensures
        0 <= row * width,
        0 <= row * width + col < width * height,
{
}

/// Row and column are recovered from a row-major index by division and
/// remainder.
pub proof fn lemma_index_split(row: int, col: int, width: int)
    requires
        0 <= col < width,
    ensures
        (row * width + col) / width == row,
        (row * width + col) % width == col,
{
    vstd::arithmetic::div_mod::lemma_fundamental_div_mod_converse(
        row * width + col,
        width,
        row,
        col,
    );
}

/// Every index of the cell sequence splits into a row and a column of the
/// grid, from which the index is put together again.
pub proof fn lemma_index_join(i: int, width: int, height: int)
    requires
        0 < width,
        0 <= i < width * height,
    ensures
        0 <= i / width < height,
        0 <= i % width < width,
        (i / width) * width + i % width == i,
{
    let q = i / width;
    let r = i % width;
    vstd::arithmetic::div_mod::lemma_fundamental_div_mod(i, width);
    vstd::arithmetic::div_mod::lemma_mod_bound(i, width);
    assert(q * width == width * q) by (nonlinear_arith);
    assert(0 <= q < height) by (nonlinear_arith)
        requires
            0 < width,
            0 <= r < width,
            0 <= q * width + r < width * height,
    ;
}

/// Where a coordinate lands after each of the three wrap deltas along an
/// axis of length `n`.
pub proof fn lemma_wrap(x: int, n: int)
    requires
        0 <= x < n,
    ensures
        (x + (n - 1)) % n == if x == 0 {
            n - 1
        } else {
            x - 1
        },
        (x + 0) % n == x,
        (x + 1) % n == if x == n - 1 {
            0
        } else {
            x + 1
        },
{
    if x == 0 {
        vstd::arithmetic::div_mod::lemma_fundamental_div_mod_converse(x + (n - 1), n, 0, n - 1);
    } else {
        vstd::arithmetic::div_mod::lemma_fundamental_div_mod_converse(x + (n - 1), n, 1, x - 1);
    }
    vstd::arithmetic::div_mod::lemma_fundamental_div_mod_converse(x + 0, n, 0, x);
    if x == n - 1 {
        vstd::arithmetic::div_mod::lemma_fundamental_div_mod_converse(x + 1, n, 1, 0);
    } else {
        vstd::arithmetic::div_mod::lemma_fundamental_div_mod_converse(x + 1, n, 0, x + 1);
    }
}

} // verus!
