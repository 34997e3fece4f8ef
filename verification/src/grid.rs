//! Row-major addressing of a rectangular grid: the cell in column `col` of row
//! `row` has index `row * cols + col`.

use vstd::prelude::*;
use vstd::arithmetic::div_mod::lemma_fundamental_div_mod_converse;
use vstd::arithmetic::div_mod::lemma_fundamental_div_mod;
use vstd::arithmetic::div_mod::lemma_mod_bound;

verus! {

/// Index of the cell `(col, row)` in a grid that is `cols` cells wide.
pub open spec fn cell_index(col: int, row: int, cols: int) -> int {
    row * cols + col
}

/// Column of the cell with the given index in a grid that is `cols` cells wide.
pub open spec fn index_col(index: int, cols: int) -> int {
    index % cols
}

/// Row of the cell with the given index in a grid that is `cols` cells wide.
pub open spec fn index_row(index: int, cols: int) -> int {
    index / cols
}

/// `(col, row)` is a cell of the `cols` by `rows` grid.
pub open spec fn in_grid(col: int, row: int, cols: int, rows: int) -> bool {
    0 <= col < cols && 0 <= row < rows
}

/// The index of a cell of the grid is below the number of cells.
pub proof fn lemma_cell_index_in_range(col: int, row: int, cols: int, rows: int)
    requires
        in_grid(col, row, cols, rows),
    ensures
        0 <= cell_index(col, row, cols) < cols * rows,
        0 <= row * cols <= cols * rows - cols,
{
    assert(0 <= row * cols && row * cols + cols <= cols * rows) by (nonlinear_arith)
        requires
            0 <= row < rows,
            0 < cols,
    ;
}

/// Column and row are recovered from the index of a cell.
pub proof fn lemma_index_of_cell(col: int, row: int, cols: int)
    requires
        0 <= col < cols,
    ensures
        index_col(cell_index(col, row, cols), cols) == col,
        index_row(cell_index(col, row, cols), cols) == row,
{
    lemma_fundamental_div_mod_converse(cell_index(col, row, cols), cols, row, col);
}

/// An index below the number of cells names a cell of the grid, and is that
/// cell's index.
pub proof fn lemma_cell_of_index(index: int, cols: int, rows: int)
    requires
        0 <= index < cols * rows,
        0 <= rows,
    ensures
        cols > 0,
        in_grid(index_col(index, cols), index_row(index, cols), cols, rows),
        cell_index(index_col(index, cols), index_row(index, cols), cols) == index,
{
    assert(cols > 0) by (nonlinear_arith)
        requires
            0 <= index < cols * rows,
            0 <= rows,
    ;
    lemma_fundamental_div_mod(index, cols);
    lemma_mod_bound(index, cols);
    let q = index / cols;
    let r = index % cols;
    assert(cols * q == q * cols) by (nonlinear_arith);
    assert(0 <= q < rows) by (nonlinear_arith)
        requires
            index == q * cols + r,
            0 <= r < cols,
            0 <= index < cols * rows,
    ;
}

/// Two cells with the same index are the same cell.
pub proof fn lemma_cell_index_injective(c1: int, r1: int, c2: int, r2: int, cols: int)
    requires
        0 <= c1 < cols,
        0 <= c2 < cols,
        cell_index(c1, r1, cols) == cell_index(c2, r2, cols),
    ensures
        c1 == c2,
        r1 == r2,
{
    lemma_index_of_cell(c1, r1, cols);
    lemma_index_of_cell(c2, r2, cols);
}

} // verus!
