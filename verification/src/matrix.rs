//! The integer matrix that the row operations act on.
//!
//! The storage is a dynamically sized `nalgebra` matrix. Its entries are known to the
//! verifier only through [`matrix_rows`] and the contracts of the few calls made into
//! `nalgebra`, all of which are taken on trust and are gathered in this file.

use nalgebra::DMatrix;
use vstd::prelude::*;

verus! {

/// A dynamically sized matrix of `i64` entries, stored as `nalgebra::DMatrix<i64>`.
///
/// The verifier does not look inside: what it knows of a value is [`matrix_rows`]. The
/// field is public, so that a matrix comes in and goes out as the `nalgebra` value it is,
/// without a copy.
#[verifier::external_body]
pub struct IntMatrix(pub DMatrix<i64>);

/// The entries of `m` as mathematical integers, row by row: `matrix_rows(m)[i][j]` is the
/// entry in row `i` and column `j`, and `matrix_rows(m).len()` is the number of rows. Every
/// row holds as many entries as the matrix has columns.
pub uninterp spec fn matrix_rows(m: IntMatrix) -> Seq<Seq<int>>;

impl View for IntMatrix {
    type V = Seq<Seq<int>>;

    open spec fn view(&self) -> Seq<Seq<int>> {
        matrix_rows(*self)
    }
}

/// Whether `(row, col)` addresses an entry of the grid `g`.
pub open spec fn has_entry(g: Seq<Seq<int>>, row: int, col: int) -> bool {
    0 <= row < g.len() && 0 <= col < g[row].len()
}

/// The grid `g` with `value` in place of the entry at `(row, col)`.
pub open spec fn with_entry(g: Seq<Seq<int>>, row: int, col: int, value: int) -> Seq<Seq<int>> {
    g.update(row, g[row].update(col, value))
}

/// The grid `g` with the entries at `a` and `b` exchanged.
pub open spec fn with_entries_swapped(g: Seq<Seq<int>>, a: (int, int), b: (int, int)) -> Seq<
    Seq<int>,
> {
    with_entry(with_entry(g, a.0, a.1, g[b.0][b.1]), b.0, b.1, g[a.0][a.1])
}

/// `nalgebra::Matrix::nrows`: the number of rows of the matrix.
#[verifier::external_body]
pub(crate) fn nrows(m: &IntMatrix) -> (n: usize)
    ensures
        n == matrix_rows(*m).len(),
{
    m.0.nrows()
}

/// `nalgebra::Matrix::ncols`: the number of columns of the matrix, which is the number of
/// entries that each of its rows holds.
#[verifier::external_body]
pub(crate) fn ncols(m: &IntMatrix) -> (n: usize)
    ensures
        forall|i: int|
            0 <= i < matrix_rows(*m).len() ==> (#[trigger] matrix_rows(*m)[i]).len() == n,
{
    m.0.ncols()
}

/// `nalgebra::Matrix::index` at a pair `(row, col)`: the entry at that place. The call
/// panics on a pair that addresses no entry, which the precondition rules out.
#[verifier::external_body]
pub(crate) fn entry(m: &IntMatrix, row: usize, col: usize) -> (value: i64)
    requires
        has_entry(matrix_rows(*m), row as int, col as int),
    ensures
        value == matrix_rows(*m)[row as int][col as int],
{
    m.0[(row, col)]
}

/// `nalgebra::Matrix::index_mut` at a pair `(row, col)`, assigned through: the entry at
/// that place becomes `value` and no other entry changes. The call panics on a pair that
/// addresses no entry, which the precondition rules out.
#[verifier::external_body]
pub(crate) fn set_entry(m: &mut IntMatrix, row: usize, col: usize, value: i64)
    requires
        has_entry(matrix_rows(*old(m)), row as int, col as int),
    ensures
        matrix_rows(*final(m)) == with_entry(
            matrix_rows(*old(m)),
            row as int,
            col as int,
            value as int,
        ),
{
    m.0[(row, col)] = value;
}

/// `nalgebra::Matrix::swap`: the entries at `a` and `b` change places and no other entry
/// changes. The call panics on a pair that addresses no entry, which the precondition
/// rules out.
#[verifier::external_body]
pub(crate) fn swap_entries(m: &mut IntMatrix, a: (usize, usize), b: (usize, usize))
    requires
        has_entry(matrix_rows(*old(m)), a.0 as int, a.1 as int),
        has_entry(matrix_rows(*old(m)), b.0 as int, b.1 as int),
    ensures
        matrix_rows(*final(m)) == with_entries_swapped(
            matrix_rows(*old(m)),
            (a.0 as int, a.1 as int),
            (b.0 as int, b.1 as int),
        ),
{
    m.0.swap(a, b)
}

} // verus!
