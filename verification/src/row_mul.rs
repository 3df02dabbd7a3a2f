//! Row multiplication: the operation that scales one row of a matrix.

use crate::elem_row_op::ElemRowOp;
use crate::err::RowIdxOutOfBoundsError;
use crate::grid::{product_fits, row_mul_fits, with_row_scaled};
use crate::matrix::{entry, ncols, nrows, set_entry, IntMatrix};
use crate::MatrixReprOfLinSys;
use vstd::prelude::*;

verus! {

/// The multiplication of every entry of one row of a matrix by the same factor.
pub struct RowMul<'a, T> {
    /// The zero-based index of the row to be scaled
    pub row_zbi: usize,
    /// The factor by which the row is scaled
    pub factor: &'a T,
}

impl<'a> ElemRowOp<IntMatrix> for RowMul<'a, i64> {
    type Error = RowIdxOutOfBoundsError;

    open spec fn verdict(&self, m: &IntMatrix) -> Result<(), Self::Error> {
        RowIdxOutOfBoundsError::verdict(self.row_zbi, m@.len() as int)
    }

    /// In every column the product is within `i64`.
    open spec fn fits(&self, m: &IntMatrix) -> bool {
        row_mul_fits(m@, self.row_zbi as int, *self.factor as int)
    }

    open spec fn effect(&self, before: &IntMatrix, after: &IntMatrix) -> bool {
        after@ == with_row_scaled(before@, self.row_zbi as int, *self.factor as int)
    }

    fn perform_unchecked(self, m: &mut IntMatrix) {
        let RowMul { row_zbi: i, factor } = self;

        let ghost before = m@;
        let ncols = ncols(m);
        for j in 0..ncols
            invariant
                i < before.len(),
                before[i as int].len() == ncols,
                row_mul_fits(before, i as int, *factor as int),
                m@.len() == before.len(),
                m@[i as int].len() == ncols,
                forall|k: int| 0 <= k < before.len() && k != i ==> m@[k] == before[k],
                forall|c: int| 0 <= c < j ==> m@[i as int][c] == before[i as int][c] * *factor,
                forall|c: int| j <= c < ncols ==> m@[i as int][c] == before[i as int][c],
        {
            assert(product_fits(before[i as int][j as int], *factor as int));
            let product = entry(m, i, j) * *factor;
            set_entry(m, i, j, product);
        }
        assert(m@ =~~= with_row_scaled(before, i as int, *factor as int));
    }

    fn validate(&self, m: &IntMatrix) -> (res: Result<(), Self::Error>) {
        RowIdxOutOfBoundsError::check(self.row_zbi, nrows(m))
    }
}

impl<'a> RowMul<'a, i64> {
    /// Finds out whether the multiplication can be carried out on `m` in `i64` arithmetic,
    /// that is, whether `m` meets what [`perform`](ElemRowOp::perform) asks of it. A
    /// multiplication with an index that misses `m` computes nothing and fits.
    pub fn fits_in(&self, m: &IntMatrix) -> (fits: bool)
        ensures
            fits == (self.row_zbi < m@.len() ==> row_mul_fits(
                m@,
                self.row_zbi as int,
                *self.factor as int,
            )),
    {
        let i = self.row_zbi;
        if i >= nrows(m) {
            return true;
        }
        let ncols = ncols(m);
        for j in 0..ncols
            invariant
                i == self.row_zbi < m@.len(),
                m@[i as int].len() == ncols,
                forall|c: int|
                    0 <= c < j ==> #[trigger] product_fits(m@[i as int][c], *self.factor as int),
        {
            if entry(m, i, j).checked_mul(*self.factor).is_none() {
                assert(!product_fits(m@[i as int][j as int], *self.factor as int));
                return false;
            }
        }
        true
    }
}

impl<'a> ElemRowOp<MatrixReprOfLinSys<IntMatrix>> for RowMul<'a, i64> {
    type Error = RowIdxOutOfBoundsError;

    open spec fn verdict(&self, m: &MatrixReprOfLinSys<IntMatrix>) -> Result<(), Self::Error> {
        ElemRowOp::<IntMatrix>::verdict(self, &m.0)
    }

    open spec fn fits(&self, m: &MatrixReprOfLinSys<IntMatrix>) -> bool {
        ElemRowOp::<IntMatrix>::fits(self, &m.0)
    }

    open spec fn effect(
        &self,
        before: &MatrixReprOfLinSys<IntMatrix>,
        after: &MatrixReprOfLinSys<IntMatrix>,
    ) -> bool {
        ElemRowOp::<IntMatrix>::effect(self, &before.0, &after.0)
    }

    fn perform_unchecked(self, m: &mut MatrixReprOfLinSys<IntMatrix>) {
        ElemRowOp::<IntMatrix>::perform_unchecked(self, &mut m.0)
    }

    fn validate(&self, m: &MatrixReprOfLinSys<IntMatrix>) -> (res: Result<(), Self::Error>) {
        ElemRowOp::<IntMatrix>::validate(self, &m.0)
    }
}

} // verus!
