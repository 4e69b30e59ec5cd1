//! Index arithmetic for byte grids laid out row by row: a grid of rows of
//! `stride` bytes, each row holding cells of a fixed width.
use vstd::prelude::*;

verus! {

/// The byte at offset `col` of row `row` sits at `row * stride + col`, and
/// division by the stride recovers both.
pub proof fn lemma_grid_position(row: int, stride: int, col: int)
    requires
        0 <= row,
        0 <= col < stride,
    ensures
        (row * stride + col) / stride == row,
        (row * stride + col) % stride == col,
{
    vstd::arithmetic::div_mod::lemma_fundamental_div_mod_converse(row * stride + col, stride, row, col);
}

/// Every index splits into its row and its offset in that row.
pub proof fn lemma_grid_split(i: int, stride: int)
    requires
        0 <= i,
        0 < stride,
    ensures
        i == (i / stride) * stride + i % stride,
        0 <= i % stride < stride,
        0 <= i / stride,
{
    vstd::arithmetic::div_mod::lemma_fundamental_div_mod(i, stride);
    vstd::arithmetic::mul::lemma_mul_is_commutative(stride, i / stride);
    vstd::arithmetic::div_mod::lemma_div_pos_is_pos(i, stride);
}

/// The whole rows of a buffer of `len` bytes end at or before its end, and
/// any row before the last whole one ends at or before the start of the next.
pub proof fn lemma_whole_rows(len: int, stride: int, row: int)
    requires
        0 <= len,
        0 < stride,
        0 <= row < len / stride,
    ensures
        (len / stride) * stride <= len,
        (row + 1) * stride <= (len / stride) * stride,
        row * stride + stride == (row + 1) * stride,
{
    lemma_grid_split(len, stride);
    vstd::arithmetic::mul::lemma_mul_inequality(row + 1, len / stride, stride);
    vstd::arithmetic::mul::lemma_mul_is_distributive_add_other_way(stride, row, 1);
}

/// An index at or past the end of the whole rows lies in no whole row.
pub proof fn lemma_past_whole_rows(i: int, stride: int, rows: int)
    requires
        0 < stride,
        0 <= rows,
        rows * stride <= i,
    ensures
        i / stride >= rows,
{
    lemma_grid_split(i, stride);
    if i / stride < rows {
        vstd::arithmetic::mul::lemma_mul_inequality(i / stride + 1, rows, stride);
        vstd::arithmetic::mul::lemma_mul_is_distributive_add_other_way(stride, i / stride, 1);
    }
}

/// Cells of width four inside a row: the `k`-th byte of cell `c`.
pub proof fn lemma_cell_of_four(c: int, k: int)
    requires
        0 <= c,
        0 <= k < 4,
    ensures
        (4 * c + k) / 4 == c,
        (4 * c + k) % 4 == k,
{
    vstd::arithmetic::div_mod::lemma_fundamental_div_mod_converse(4 * c + k, 4, c, k);
}

/// With `cells` cells of width four in a row of `stride` bytes, the cells
/// end at or before the end of the row.
pub proof fn lemma_cells_fit(stride: int)
    requires
        0 < stride,
    ensures
        4 * (stride / 4) <= stride,
        stride - 4 * (stride / 4) < 4,
{
    vstd::arithmetic::div_mod::lemma_fundamental_div_mod(stride, 4);
}

} // verus!
