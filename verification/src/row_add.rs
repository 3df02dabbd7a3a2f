//! Row addition: the operation that adds a multiple of one row to another.

use crate::elem_row_op::ElemRowOp;
use crate::err::BinaryRowIdxOutOfBoundsError;
use crate::grid::{row_add_fits, sum_fits, with_row_added};
use crate::matrix::{entry, ncols, nrows, set_entry, IntMatrix};
use crate::MatrixReprOfLinSys;
use vstd::prelude::*;

verus! {

/// The addition of a multiple of one row of a matrix to a row of that matrix, entry by
/// entry.
///
/// The two rows may be the same: every entry `e` of the row then becomes
/// `e + e * factor`.
pub struct RowAdd<'a, T> {
    /// The zero-based index of the row to which the scaled second row is added, i.e.
    /// the zero-based index of the "inout row"
    pub inout_row_zbi: usize,
    /// The zero-based index of the row to be scaled and added to the "inout row", i.e.
    /// the zero-based index of the "in row"
    pub in_row_zbi: usize,
    /// The factor by which the "in row" is scaled before summation
    pub factor: &'a T,
}

impl<'a> ElemRowOp<IntMatrix> for RowAdd<'a, i64> {
    type Error = BinaryRowIdxOutOfBoundsError;

    /// The "inout row" is the first index and the "in row" the second.
    open spec fn verdict(&self, m: &IntMatrix) -> Result<(), Self::Error> {
        BinaryRowIdxOutOfBoundsError::verdict(self.inout_row_zbi, self.in_row_zbi, m@.len() as int)
    }

    /// In every column the product and the sum are within `i64`.
    open spec fn fits(&self, m: &IntMatrix) -> bool {
        row_add_fits(m@, self.inout_row_zbi as int, self.in_row_zbi as int, *self.factor as int)
    }

    open spec fn effect(&self, before: &IntMatrix, after: &IntMatrix) -> bool {
        after@ == with_row_added(
            before@,
            self.inout_row_zbi as int,
            self.in_row_zbi as int,
            *self.factor as int,
        )
    }

    fn perform_unchecked(self, m: &mut IntMatrix) {
        let RowAdd { inout_row_zbi: i_1, in_row_zbi: i_2, factor } = self;

        let ghost before = m@;
        let ncols = ncols(m);
        for j in 0..ncols
            invariant
                i_1 < before.len(),
                i_2 < before.len(),
                before[i_1 as int].len() == ncols,
                before[i_2 as int].len() == ncols,
                row_add_fits(before, i_1 as int, i_2 as int, *factor as int),
                m@.len() == before.len(),
                m@[i_1 as int].len() == ncols,
                forall|i: int| 0 <= i < before.len() && i != i_1 ==> m@[i] == before[i],
                forall|c: int|
                    0 <= c < j ==> m@[i_1 as int][c] == before[i_1 as int][c]
                        + before[i_2 as int][c] * *factor,
                forall|c: int| j <= c < ncols ==> m@[i_1 as int][c] == before[i_1 as int][c],
        {
            assert(sum_fits(
                before[i_1 as int][j as int],
                before[i_2 as int][j as int],
                *factor as int,
            ));
            let corresponding_entry = entry(m, i_2, j);
            let sum = entry(m, i_1, j) + corresponding_entry * *factor;
            set_entry(m, i_1, j, sum);
        }
        assert(m@ =~~= with_row_added(before, i_1 as int, i_2 as int, *factor as int));
    }

    fn validate(&self, m: &IntMatrix) -> (res: Result<(), Self::Error>) {
        BinaryRowIdxOutOfBoundsError::check(self.inout_row_zbi, self.in_row_zbi, nrows(m))
    }
}

impl<'a> RowAdd<'a, i64> {
    /// Finds out whether the addition can be carried out on `m` in `i64` arithmetic, that
    /// is, whether `m` meets what [`perform`](ElemRowOp::perform) asks of it. An addition
    /// with an index that misses `m` computes nothing and fits.
    pub fn fits_in(&self, m: &IntMatrix) -> (fits: bool)
        ensures
            fits == (self.inout_row_zbi < m@.len() && self.in_row_zbi < m@.len() ==> row_add_fits(
                m@,
                self.inout_row_zbi as int,
                self.in_row_zbi as int,
                *self.factor as int,
            )),
    {
        let i_1 = self.inout_row_zbi;
        let i_2 = self.in_row_zbi;
        let nrows = nrows(m);
        if i_1 >= nrows || i_2 >= nrows {
            return true;
        }
        let ncols = ncols(m);
        for j in 0..ncols
            invariant
                i_1 == self.inout_row_zbi < m@.len(),
                i_2 == self.in_row_zbi < m@.len(),
                m@[i_1 as int].len() == ncols,
                m@[i_2 as int].len() == ncols,
                forall|c: int|
                    0 <= c < j ==> #[trigger] sum_fits(
                        m@[i_1 as int][c],
                        m@[i_2 as int][c],
                        *self.factor as int,
                    ),
        {
            let sum = match entry(m, i_2, j).checked_mul(*self.factor) {
                Some(product) => entry(m, i_1, j).checked_add(product),
                None => None,
            };
            if sum.is_none() {
                assert(!sum_fits(
                    m@[i_1 as int][j as int],
                    m@[i_2 as int][j as int],
                    *self.factor as int,
                ));
                return false;
            }
        }
        true
    }
}

impl<'a> ElemRowOp<MatrixReprOfLinSys<IntMatrix>> for RowAdd<'a, i64> {
    type Error = BinaryRowIdxOutOfBoundsError;

    open spec fn verdict(&self, m: &MatrixReprOfLinSys<IntMatrix>) -> Result<(), Self::Error> {
        ElemRowOp::<IntMatrix>::verdict(self, &m.0)
    }

    open spec fn fits(&self, m: &MatrixReprOfLinSys<IntMatrix>) -> bool {
        ElemRowOp::<IntMatrix>::fits(self, &m.0)
    }

    open spec fn effect(
        &self,
        before: &MatrixReprOfLinSys<IntMatrix>,
        after: &MatrixReprOfLinSys<IntMatrix>,
    ) -> bool {
        ElemRowOp::<IntMatrix>::effect(self, &before.0, &after.0)
    }

    fn perform_unchecked(self, m: &mut MatrixReprOfLinSys<IntMatrix>) {
        ElemRowOp::<IntMatrix>::perform_unchecked(self, &mut m.0)
    }

    fn validate(&self, m: &MatrixReprOfLinSys<IntMatrix>) -> (res: Result<(), Self::Error>) {
        ElemRowOp::<IntMatrix>::validate(self, &m.0)
    }
}

} // verus!
