//! Elementary row operations on a grid of mathematical integers, and the laws they obey.
//!
//! A grid is a sequence of rows, each a sequence of entries. The contracts of the
//! executable operations are stated with the functions of this module, applied to the
//! view of the matrix.

use vstd::prelude::*;

verus! {

/// The grid `g` with the rows `first` and `second` exchanged.
pub open spec fn with_rows_exchanged(g: Seq<Seq<int>>, first: int, second: int) -> Seq<
    Seq<int>,
> {
    g.update(first, g[second]).update(second, g[first])
}

/// The row `target` after `factor` times each entry of `source` has been added to the
/// entry of `target` in the same column.
pub open spec fn scaled_sum(target: Seq<int>, source: Seq<int>, factor: int) -> Seq<int> {
    Seq::new(target.len(), |j: int| target[j] + source[j] * factor)
}

/// The grid `g` with `factor` times the row `source` added to the row `target`.
///
/// With `target == source` every entry `e` of that row becomes `e + e * factor`.
pub open spec fn with_row_added(g: Seq<Seq<int>>, target: int, source: int, factor: int) -> Seq<
    Seq<int>,
> {
    g.update(target, scaled_sum(g[target], g[source], factor))
}

/// The row `row` with every entry multiplied by `factor`.
pub open spec fn scaled(row: Seq<int>, factor: int) -> Seq<int> {
    Seq::new(row.len(), |j: int| row[j] * factor)
}

/// The grid `g` with every entry of the row `row` multiplied by `factor`.
pub open spec fn with_row_scaled(g: Seq<Seq<int>>, row: int, factor: int) -> Seq<Seq<int>> {
    g.update(row, scaled(g[row], factor))
}

/// Whether `value` can be stored in an `i64`.
pub open spec fn fits_i64(value: int) -> bool {
    i64::MIN <= value <= i64::MAX
}

/// Whether adding `factor` times `source` to `target` stays within `i64`, the product
/// included.
pub open spec fn sum_fits(target: int, source: int, factor: int) -> bool {
    fits_i64(source * factor) && fits_i64(target + source * factor)
}

/// Whether `factor` times the row `source` can be added to the row `target` of `g` in
/// `i64` arithmetic: in every column the product and the sum are within `i64`.
pub open spec fn row_add_fits(g: Seq<Seq<int>>, target: int, source: int, factor: int) -> bool {
    forall|j: int|
        0 <= j < g[target].len() ==> #[trigger] sum_fits(g[target][j], g[source][j], factor)
}

/// Whether multiplying `entry` by `factor` stays within `i64`.
pub open spec fn product_fits(entry: int, factor: int) -> bool {
    fits_i64(entry * factor)
}

/// Whether the row `row` of `g` can be multiplied by `factor` in `i64` arithmetic: in
/// every column the product is within `i64`.
pub open spec fn row_mul_fits(g: Seq<Seq<int>>, row: int, factor: int) -> bool {
    forall|j: int| 0 <= j < g[row].len() ==> #[trigger] product_fits(g[row][j], factor)
}

/// Exchanging two rows twice restores the grid.
pub proof fn row_exchange_is_involution(g: Seq<Seq<int>>, first: int, second: int)
    requires
        0 <= first < g.len(),
        0 <= second < g.len(),
    ensures
        with_rows_exchanged(with_rows_exchanged(g, first, second), first, second) == g,
{
    assert(with_rows_exchanged(with_rows_exchanged(g, first, second), first, second) =~= g);
}

/// Exchanging a row with itself leaves the grid as it is.
pub proof fn row_exchange_with_itself_is_identity(g: Seq<Seq<int>>, row: int)
    requires
        0 <= row < g.len(),
    ensures
        with_rows_exchanged(g, row, row) == g,
{
    assert(with_rows_exchanged(g, row, row) =~= g);
}

/// The order in which the two rows of an exchange are named does not matter.
pub proof fn row_exchange_is_symmetric(g: Seq<Seq<int>>, first: int, second: int)
    requires
        0 <= first < g.len(),
        0 <= second < g.len(),
    ensures
        with_rows_exchanged(g, first, second) == with_rows_exchanged(g, second, first),
{
    assert(with_rows_exchanged(g, first, second) =~= with_rows_exchanged(g, second, first));
}

/// Adding a multiple of one row to another, and then the same multiple with the opposite
/// sign, restores the grid.
///
/// Where the row is added to itself this holds only if the factor is zero or the row holds
/// nothing but zeros: an entry `e` ends as `e - e * factor * factor`.
pub proof fn row_add_is_undone_by_negated_factor(
    g: Seq<Seq<int>>,
    target: int,
    source: int,
    factor: int,
)
    requires
        0 <= target < g.len(),
        0 <= source < g.len(),
        target != source || factor == 0 || forall|j: int|
            0 <= j < g[target].len() ==> g[target][j] == 0,
    ensures
        with_row_added(with_row_added(g, target, source, factor), target, source, -factor) == g,
{
    let once = with_row_added(g, target, source, factor);
    let twice = with_row_added(once, target, source, -factor);
    assert forall|j: int| 0 <= j < g[target].len() implies twice[target][j] == g[target][j] by {
        let a = g[target][j];
        let b = g[source][j];
        if target != source {
            assert(b * factor + b * (-factor) == 0) by (nonlinear_arith);
        } else {
            assert((a + a * factor) + (a + a * factor) * (-factor) == a) by (nonlinear_arith)
                requires
                    factor == 0 || a == 0,
            ;
        }
    }
    assert(twice[target] =~= g[target]);
}

/// Scaling a row by a factor, and then by an inverse of that factor, restores the grid.
pub proof fn row_scale_is_undone_by_inverse_factor(
    g: Seq<Seq<int>>,
    row: int,
    factor: int,
    inverse: int,
)
    requires
        0 <= row < g.len(),
        factor * inverse == 1,
    ensures
        with_row_scaled(with_row_scaled(g, row, factor), row, inverse) == g,
{
    let once = with_row_scaled(g, row, factor);
    let twice = with_row_scaled(once, row, inverse);
    assert forall|j: int| 0 <= j < g[row].len() implies twice[row][j] == g[row][j] by {
        let a = g[row][j];
        assert((a * factor) * inverse == a) by (nonlinear_arith)
            requires
                factor * inverse == 1,
        ;
    }
    assert(twice[row] =~= g[row]);
}

} // verus!
