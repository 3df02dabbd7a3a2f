//! Error values reported when a row index does not address a row of the matrix.

use vstd::prelude::*;

verus! {

/// Out-of-bounds error of an operation that takes two row indices.
///
/// Every variant carries the pair `(first, second)` of indices as they were given. Which
/// variant is reported goes by the order of the two indices in the operation.
#[derive(Debug, Clone, Copy, PartialEq, Eq)]
pub enum BinaryRowIdxOutOfBoundsError {
    /// Only the first index is not below the row count.
    FirstIdxOutOfBounds((usize, usize)),
    /// Only the second index is not below the row count.
    SecondIdxOutOfBounds((usize, usize)),
    /// Neither index is below the row count.
    BothIdcesOutOfBounds((usize, usize)),
}

/// Out-of-bounds error of an operation that takes a single row index, which it carries.
#[derive(Debug, Clone, Copy, PartialEq, Eq)]
pub struct RowIdxOutOfBoundsError(pub usize);

impl BinaryRowIdxOutOfBoundsError {
    /// What is found of the row indices `first` and `second` in a matrix of `nrows` rows:
    /// nothing if both are below `nrows`, and else the variant that names the ones that are
    /// not.
    pub open spec fn verdict(first: usize, second: usize, nrows: int) -> Result<(), Self> {
        match (first < nrows, second < nrows) {
            (true, true) => Ok(()),
            (false, true) => Err(Self::FirstIdxOutOfBounds((first, second))),
            (true, false) => Err(Self::SecondIdxOutOfBounds((first, second))),
            (false, false) => Err(Self::BothIdcesOutOfBounds((first, second))),
        }
    }

    /// Compares the row indices `first` and `second` with the row count `nrows`.
    pub fn check(first: usize, second: usize, nrows: usize) -> (res: Result<(), Self>)
        ensures
            res == Self::verdict(first, second, nrows as int),
            res is Ok <==> first < nrows && second < nrows,
    {
        if first >= nrows && second >= nrows {
            Err(Self::BothIdcesOutOfBounds((first, second)))
        } else if first >= nrows {
            Err(Self::FirstIdxOutOfBounds((first, second)))
        } else if second >= nrows {
            Err(Self::SecondIdxOutOfBounds((first, second)))
        } else {
            Ok(())
        }
    }
}

impl RowIdxOutOfBoundsError {
    /// What is found of the row index `row` in a matrix of `nrows` rows: nothing if it is
    /// below `nrows`, and else the error that carries it.
    pub open spec fn verdict(row: usize, nrows: int) -> Result<(), Self> {
        if row < nrows {
            Ok(())
        } else {
            Err(RowIdxOutOfBoundsError(row))
        }
    }

    /// Compares the row index `row` with the row count `nrows`.
    pub fn check(row: usize, nrows: usize) -> (res: Result<(), Self>)
        ensures
            res == Self::verdict(row, nrows as int),
            res is Ok <==> row < nrows,
    {
        if row >= nrows {
            Err(RowIdxOutOfBoundsError(row))
        } else {
            Ok(())
        }
    }
}

} // verus!
