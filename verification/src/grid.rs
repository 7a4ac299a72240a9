//! Integer layout decisions of a grid of equally sized cells: how many rows
//! the children need, how many rows fit, how many children are drawn, and
//! after which child a new row starts.

use vstd::prelude::*;
use vstd::arithmetic::div_mod::{lemma_fundamental_div_mod, lemma_fundamental_div_mod_converse};

verus! {

/// The least number of rows of `cells_in_row` cells that hold `count` cells.
pub open spec fn spec_rows_needed(count: nat, cells_in_row: nat) -> nat
    recommends
        cells_in_row > 0,
{
    if count % cells_in_row == 0 {
        count / cells_in_row
    } else {
        count / cells_in_row + 1
    }
}

/// Number of rows needed to hold `count` cells, `cells_in_row` to a row:
/// `count / cells_in_row` rounded up.
pub fn rows_needed(count: usize, cells_in_row: usize) -> (rows: usize)
    requires
        cells_in_row > 0,
    ensures
        rows == spec_rows_needed(count as nat, cells_in_row as nat),
        count <= rows * cells_in_row,
        rows == 0 || (rows - 1) * cells_in_row < count,
{
    proof {
        lemma_fundamental_div_mod(count as int, cells_in_row as int);
    }
    let q = count / cells_in_row;
    if count % cells_in_row == 0 {
        assert(q * cells_in_row == count && (q == 0 || (q - 1) * cells_in_row < count))
            by (nonlinear_arith)
            requires
                count == cells_in_row * q + 0,
                cells_in_row > 0,
        ;
        q
    } else {
        assert(count <= (q + 1) * cells_in_row && q * cells_in_row < count) by (nonlinear_arith)
            requires
                count == cells_in_row * q + (count % cells_in_row),
                0 < count % cells_in_row < cells_in_row,
        ;
        assert(q <= q * cells_in_row) by (nonlinear_arith)
            requires
                cells_in_row > 0,
                q >= 0,
        ;
        q + 1
    }
}


/// Lowers `rows` one by one while the grid of that many rows is too tall and
/// any rows are left: the result is the largest row count, not above
/// `rows`, that `too_tall` did not reject, or zero.
pub fn fit_rows<F: Fn(usize) -> bool>(rows: usize, too_tall: F) -> (fitted: usize)
    requires
        forall|r: usize| 0 < r <= rows ==> call_requires(too_tall, (r,)),
    ensures
        fitted <= rows,
        fitted == 0 || call_ensures(too_tall, (fitted,), false),
        forall|r: usize| fitted < r <= rows ==> call_ensures(too_tall, (r,), true),
{
    let mut fitted = rows;
    while fitted > 0 && too_tall(fitted)
        invariant
            fitted <= rows,
            forall|r: usize| 0 < r <= rows ==> call_requires(too_tall, (r,)),
            forall|r: usize| fitted < r <= rows ==> call_ensures(too_tall, (r,), true),
        ensures
            fitted <= rows,
            fitted == 0 || call_ensures(too_tall, (fitted,), false),
            forall|r: usize| fitted < r <= rows ==> call_ensures(too_tall, (r,), true),
        decreases fitted,
    {
        fitted = fitted - 1;
    }
    fitted
}

/// The smaller of two integers.
pub open spec fn spec_min(a: int, b: int) -> int {
    if a <= b { a } else { b }
}

/// Number of children drawn: all `len` of them, or as many as there are
/// cells in `rows` rows of `cells_in_row` cells, whichever is smaller.
pub fn drawable_count(len: usize, rows: usize, cells_in_row: usize) -> (drawn: usize)
    ensures
        drawn == spec_min(len as int, rows * cells_in_row),
        drawn <= len,
        drawn <= rows * cells_in_row,
        drawn == len || drawn == rows * cells_in_row,
{
    match rows.checked_mul(cells_in_row) {
        Some(cells) => if len <= cells { len } else { cells },
        None => len,
    }
}

/// The drawn count is the minimum: it is neither above the children nor
/// above the cells of the fitted rows, and it is one of the two.
pub proof fn lemma_drawn_count_is_minimum(len: nat, rows: nat, cells_in_row: nat)
    ensures
        spec_min(len as int, (rows * cells_in_row) as int) <= len,
        spec_min(len as int, (rows * cells_in_row) as int) <= rows * cells_in_row,
        spec_min(len as int, (rows * cells_in_row) as int) == len
            || spec_min(len as int, (rows * cells_in_row) as int) == rows * cells_in_row,
{
}

/// Whether a new row starts after the child at `index`: the child fills the
/// last cell of its row.
pub open spec fn spec_row_ends_at(index: int, cells_in_row: int) -> bool {
    (index + 1) % cells_in_row == 0
}

/// For each of the first `drawn` children, whether a new row starts after it.
pub fn row_breaks(drawn: usize, cells_in_row: usize) -> (breaks: Vec<bool>)
    requires
        cells_in_row > 0,
    ensures
        breaks@.len() == drawn,
        forall|i: int| 0 <= i < drawn ==> breaks@[i] == spec_row_ends_at(i, cells_in_row as int),
{
    let mut breaks: Vec<bool> = Vec::new();
    let mut idx: usize = 0;
    while idx < drawn
        invariant
            idx <= drawn,
            cells_in_row > 0,
            breaks@.len() == idx,
            forall|i: int| 0 <= i < idx ==> breaks@[i] == spec_row_ends_at(i, cells_in_row as int),
        decreases drawn - idx,
    {
        breaks.push((idx + 1) % cells_in_row == 0);
        idx = idx + 1;
    }
    breaks
}

/// The cell, as (column, row), of the child at `index` when the children are
/// placed in order from the first cell of the first row, one cell to the
/// right each time, and at the start of the next row after each child whose
/// entry in `breaks` is true.
pub open spec fn placed_cell(breaks: Seq<bool>, index: nat) -> (nat, nat)
    decreases index,
{
    if index == 0 {
        (0, 0)
    } else {
        let prev = placed_cell(breaks, (index - 1) as nat);
        if breaks[index - 1] {
            (0, prev.1 + 1)
        } else {
            (prev.0 + 1, prev.1)
        }
    }
}

/// Row-major placement: with the breaks that `row_breaks` gives, the child
/// at `index` lands in column `index % cells_in_row` of row
/// `index / cells_in_row`.
pub proof fn lemma_row_major_placement(breaks: Seq<bool>, cells_in_row: nat, index: nat)
    requires
        cells_in_row > 0,
        index <= breaks.len(),
        forall|i: int| 0 <= i < breaks.len() ==> breaks[i] == spec_row_ends_at(i, cells_in_row as int),
    ensures
        placed_cell(breaks, index) == ((index % cells_in_row) as nat, (index / cells_in_row) as nat),
    decreases index,
{
    let c = cells_in_row as int;
    if index == 0 {
        lemma_fundamental_div_mod_converse(0, c, 0, 0);
    } else {
        let i = (index - 1) as int;
        lemma_row_major_placement(breaks, cells_in_row, (index - 1) as nat);
        lemma_fundamental_div_mod(i, c);
        let q = i / c;
        let r = i % c;
        assert(0 <= r < c);
        if r + 1 == c {
            assert(index as int == (q + 1) * c + 0) by (nonlinear_arith)
                requires i == c * q + r, r + 1 == c, index as int == i + 1;
            lemma_fundamental_div_mod_converse(index as int, c, q + 1, 0);
        } else {
            assert(index as int == q * c + (r + 1)) by (nonlinear_arith)
                requires i == c * q + r, index as int == i + 1;
            lemma_fundamental_div_mod_converse(index as int, c, q, r + 1);
        }
    }
}

/// Distinct children are placed in distinct cells, and every drawn child,
/// one of the first `drawable_count(len, rows, cells_in_row)`, lies inside
/// the grid of `rows` rows and `cells_in_row` columns.
pub proof fn lemma_drawn_cells_distinct_and_inside(
    breaks: Seq<bool>,
    cells_in_row: nat,
    rows: nat,
    i: nat,
    j: nat,
)
    requires
        cells_in_row > 0,
        i < breaks.len(),
        j < breaks.len(),
        breaks.len() <= rows * cells_in_row,
        forall|k: int| 0 <= k < breaks.len() ==> breaks[k] == spec_row_ends_at(k, cells_in_row as int),
    ensures
        i != j ==> placed_cell(breaks, i) != placed_cell(breaks, j),
        placed_cell(breaks, i).0 < cells_in_row,
        placed_cell(breaks, i).1 < rows,
{
    let c = cells_in_row as int;
    lemma_row_major_placement(breaks, cells_in_row, i);
    lemma_row_major_placement(breaks, cells_in_row, j);
    lemma_fundamental_div_mod(i as int, c);
    lemma_fundamental_div_mod(j as int, c);
    assert((i as int) / c < rows) by (nonlinear_arith)
        requires
            i as int == c * ((i as int) / c) + (i as int) % c,
            0 <= (i as int) % c,
            i < rows * cells_in_row,
            c == cells_in_row,
            c > 0,
    ;
}

} // verus!
