//! Elementary row operations on the matrix representation of a linear system.
//!
//! Each operation is a small parameter object that implements
//! [`ElemRowOp`](elem_row_ops::ElemRowOp): it can be validated against a matrix, carried
//! out on the word of the caller, or validated and then carried out.
//!
//! The operations are implemented for [`IntMatrix`](matrix::IntMatrix), a dynamically
//! sized matrix of `i64` entries, and for a [`MatrixReprOfLinSys`] that holds one. Their
//! contracts speak of the view of the matrix, its entries as mathematical integers row by
//! row, and of the functions of [`grid`], which say what each operation does to such a
//! view and prove what holds of them.

mod elem_row_op;
pub mod elem_row_ops;
pub mod err;
pub mod grid;
pub mod matrix;
mod row_add;
mod row_mul;
mod row_xchg;

use crate::elem_row_op::ElemRowOp;
use crate::err::{BinaryRowIdxOutOfBoundsError, RowIdxOutOfBoundsError};
use crate::grid::{
    row_add_fits, row_mul_fits, with_row_added, with_row_scaled, with_rows_exchanged,
};
use crate::matrix::IntMatrix;
use crate::row_add::RowAdd;
use crate::row_mul::RowMul;
use crate::row_xchg::RowXchg;
use vstd::prelude::*;

verus! {

/// The matrix representation of a linear system: the augmented matrix, owned, and nothing
/// else.
pub struct MatrixReprOfLinSys<M>(pub M);

impl<M> MatrixReprOfLinSys<M> {
    /// Takes `matrix` as the representation of a linear system.
    pub fn new(matrix: M) -> (system: Self)
        ensures
            system.0 == matrix,
    {
        MatrixReprOfLinSys(matrix)
    }

    /// Gives the matrix back.
    pub fn to_matrix(self) -> (matrix: M)
        ensures
            matrix == self.0,
    {
        self.0
    }

    /// Validates the elementary row operation `o` against the system and, if it is valid,
    /// carries it out. On an error the system is left as it was.
    ///
    /// A valid operation must fit the system, as [`ElemRowOp::fits`] of `o` says.
    pub fn perform_elem_row_op<O>(&mut self, o: O) -> (res: Result<(), O::Error>) where
        O: ElemRowOp<Self>,

        requires
            o.verdict(old(self)) is Ok ==> o.fits(old(self)),
        ensures
            res == o.verdict(old(self)),
            res is Ok ==> o.effect(old(self), final(self)),
            res is Err ==> *final(self) == *old(self),
    {
        o.perform(self)
    }
}

impl View for MatrixReprOfLinSys<IntMatrix> {
    type V = Seq<Seq<int>>;

    /// The entries of the matrix, row by row.
    open spec fn view(&self) -> Seq<Seq<int>> {
        self.0@
    }
}

impl MatrixReprOfLinSys<IntMatrix> {
    /// Exchanges the rows `p.row_zbi_1` and `p.row_zbi_2`, if both are rows of the matrix.
    pub fn row_xchg(&mut self, p: RowXchg) -> (res: Result<(), BinaryRowIdxOutOfBoundsError>)
        ensures
            res == BinaryRowIdxOutOfBoundsError::verdict(
                p.row_zbi_1,
                p.row_zbi_2,
                old(self)@.len() as int,
            ),
            res is Ok ==> final(self)@ == with_rows_exchanged(
                old(self)@,
                p.row_zbi_1 as int,
                p.row_zbi_2 as int,
            ),
            res is Err ==> *final(self) == *old(self),
    {
        p.perform(self)
    }

    /// Exchanges the rows `p.row_zbi_1` and `p.row_zbi_2`, which the caller knows to be
    /// rows of the matrix.
    pub fn row_xchg_unchecked(&mut self, p: RowXchg)
        requires
            p.row_zbi_1 < old(self)@.len(),
            p.row_zbi_2 < old(self)@.len(),
        ensures
            final(self)@ == with_rows_exchanged(
                old(self)@,
                p.row_zbi_1 as int,
                p.row_zbi_2 as int,
            ),
    {
        p.perform_unchecked(self)
    }

    /// Adds `p.factor` times the row `p.in_row_zbi` to the row `p.inout_row_zbi`, if both
    /// are rows of the matrix.
    ///
    /// The products and sums must then be within `i64`, which
    /// [`fits_in`](RowAdd::fits_in) finds out.
    pub fn row_add(&mut self, p: RowAdd<i64>) -> (res: Result<(), BinaryRowIdxOutOfBoundsError>)
        requires
            p.inout_row_zbi < old(self)@.len() && p.in_row_zbi < old(self)@.len() ==> row_add_fits(
                old(self)@,
                p.inout_row_zbi as int,
                p.in_row_zbi as int,
                *p.factor as int,
            ),
        ensures
            res == BinaryRowIdxOutOfBoundsError::verdict(
                p.inout_row_zbi,
                p.in_row_zbi,
                old(self)@.len() as int,
            ),
            res is Ok ==> final(self)@ == with_row_added(
                old(self)@,
                p.inout_row_zbi as int,
                p.in_row_zbi as int,
                *p.factor as int,
            ),
            res is Err ==> *final(self) == *old(self),
    {
        p.perform(self)
    }

    /// Adds `p.factor` times the row `p.in_row_zbi` to the row `p.inout_row_zbi`, both of
    /// which the caller knows to be rows of the matrix.
    ///
    /// The products and sums must be within `i64`, which [`fits_in`](RowAdd::fits_in)
    /// finds out.
    pub fn row_add_unchecked(&mut self, p: RowAdd<i64>)
        requires
            p.inout_row_zbi < old(self)@.len(),
            p.in_row_zbi < old(self)@.len(),
            row_add_fits(
                old(self)@,
                p.inout_row_zbi as int,
                p.in_row_zbi as int,
                *p.factor as int,
            ),
        ensures
            final(self)@ == with_row_added(
                old(self)@,
                p.inout_row_zbi as int,
                p.in_row_zbi as int,
                *p.factor as int,
            ),
    {
        p.perform_unchecked(self)
    }

    /// Multiplies the row `p.row_zbi` by `p.factor`, if it is a row of the matrix.
    ///
    /// The products must then be within `i64`, which [`fits_in`](RowMul::fits_in) finds
    /// out.
    pub fn row_mul(&mut self, p: RowMul<i64>) -> (res: Result<(), RowIdxOutOfBoundsError>)
        requires
            p.row_zbi < old(self)@.len() ==> row_mul_fits(
                old(self)@,
                p.row_zbi as int,
                *p.factor as int,
            ),
        ensures
            res == RowIdxOutOfBoundsError::verdict(p.row_zbi, old(self)@.len() as int),
            res is Ok ==> final(self)@ == with_row_scaled(
                old(self)@,
                p.row_zbi as int,
                *p.factor as int,
            ),
            res is Err ==> *final(self) == *old(self),
    {
        p.perform(self)
    }

    /// Multiplies the row `p.row_zbi`, which the caller knows to be a row of the matrix, by
    /// `p.factor`.
    ///
    /// The products must be within `i64`, which [`fits_in`](RowMul::fits_in) finds out.
    pub fn row_mul_unchecked(&mut self, p: RowMul<i64>)
        requires
            p.row_zbi < old(self)@.len(),
            row_mul_fits(old(self)@, p.row_zbi as int, *p.factor as int),
        ensures
            final(self)@ == with_row_scaled(old(self)@, p.row_zbi as int, *p.factor as int),
    {
        p.perform_unchecked(self)
    }
}

} // verus!
