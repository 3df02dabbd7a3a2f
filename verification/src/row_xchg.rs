//! Row exchange: the operation that swaps the entries of two rows.

use crate::elem_row_op::ElemRowOp;
use crate::err::BinaryRowIdxOutOfBoundsError;
use crate::grid::with_rows_exchanged;
use crate::matrix::{ncols, nrows, swap_entries, IntMatrix};
use crate::MatrixReprOfLinSys;
use vstd::prelude::*;

verus! {

/// The exchange of two rows of a matrix.
///
/// The order of the two indices has no bearing on the result, only on which error
/// validation reports.
pub struct RowXchg {
    /// The zero-based index of the first row to be exchanged
    pub row_zbi_1: usize,
    /// The zero-based index of the second row to be exchanged
    pub row_zbi_2: usize,
}

impl ElemRowOp<MatrixReprOfLinSys<IntMatrix>> for RowXchg {
    type Error = BinaryRowIdxOutOfBoundsError;

    open spec fn verdict(&self, m: &MatrixReprOfLinSys<IntMatrix>) -> Result<(), Self::Error> {
        BinaryRowIdxOutOfBoundsError::verdict(self.row_zbi_1, self.row_zbi_2, m@.len() as int)
    }

    /// An exchange computes nothing, so it always fits.
    open spec fn fits(&self, m: &MatrixReprOfLinSys<IntMatrix>) -> bool {
        true
    }

    open spec fn effect(
        &self,
        before: &MatrixReprOfLinSys<IntMatrix>,
        after: &MatrixReprOfLinSys<IntMatrix>,
    ) -> bool {
        after@ == with_rows_exchanged(before@, self.row_zbi_1 as int, self.row_zbi_2 as int)
    }

    fn perform_unchecked(self, m: &mut MatrixReprOfLinSys<IntMatrix>) {
        let RowXchg { row_zbi_1: i_1, row_zbi_2: i_2 } = self;

        let ghost before = m@;
        let ncols = ncols(&m.0);
        for j in 0..ncols
            invariant
                i_1 < before.len(),
                i_2 < before.len(),
                before[i_1 as int].len() == ncols,
                before[i_2 as int].len() == ncols,
                m@.len() == before.len(),
                m@[i_1 as int].len() == ncols,
                m@[i_2 as int].len() == ncols,
                forall|i: int| 0 <= i < before.len() && i != i_1 && i != i_2 ==> m@[i] == before[i],
                forall|c: int|
                    0 <= c < j ==> m@[i_1 as int][c] == before[i_2 as int][c] && m@[i_2 as int][c]
                        == before[i_1 as int][c],
                forall|c: int|
                    j <= c < ncols ==> m@[i_1 as int][c] == before[i_1 as int][c]
                        && m@[i_2 as int][c] == before[i_2 as int][c],
        {
            swap_entries(&mut m.0, (i_1, j), (i_2, j));
        }
        assert(m@ =~~= with_rows_exchanged(before, i_1 as int, i_2 as int));
    }

    fn validate(&self, m: &MatrixReprOfLinSys<IntMatrix>) -> (res: Result<(), Self::Error>) {
        BinaryRowIdxOutOfBoundsError::check(self.row_zbi_1, self.row_zbi_2, nrows(&m.0))
    }
}

} // verus!
