//! The contract that every elementary row operation implements.

use vstd::prelude::*;

verus! {

/// An elementary row operation that acts on a structure of type `T`, such as a matrix.
///
/// An implementor holds the parameters of one operation. It says what validation finds
/// ([`verdict`](ElemRowOp::verdict)), which machine limits the operation is subject to
/// ([`fits`](ElemRowOp::fits)) and what the operation does ([`effect`](ElemRowOp::effect));
/// the contracts of the three methods are stated with these.
pub trait ElemRowOp<T>: Sized {
    /// What validation reports when the operation does not apply to a structure.
    type Error;

    /// What validation of the operation against `m` finds: `Ok` if every row index that
    /// the operation holds addresses a row of `m`, and else the error that says which do
    /// not.
    spec fn verdict(&self, m: &T) -> Result<(), Self::Error>;

    /// Whether every value that the operation computes on `m` can be stored in `m`.
    spec fn fits(&self, m: &T) -> bool;

    /// Whether `after` is `before` with the operation carried out on it.
    spec fn effect(&self, before: &T, after: &T) -> bool;

    /// Carries the operation out on `m` without validating it first.
    ///
    /// The caller answers for the validity of the operation: its row indices are not
    /// compared with the row count of `m` again.
    fn perform_unchecked(self, m: &mut T)
        requires
            self.verdict(old(m)) is Ok,
            self.fits(old(m)),
        ensures
            self.effect(old(m), final(m)),
    ;

    /// Compares the row indices of the operation with the row count of `m`.
    fn validate(&self, m: &T) -> (res: Result<(), Self::Error>)
        ensures
            res == self.verdict(m),
    ;

    /// Validates the operation against `m` and, if it is valid, carries it out.
    ///
    /// On an error `m` is left as it was.
    fn perform(self, m: &mut T) -> (res: Result<(), Self::Error>)
        requires
            self.verdict(old(m)) is Ok ==> self.fits(old(m)),
        ensures
            res == self.verdict(old(m)),
            res is Ok ==> self.effect(old(m), final(m)),
            res is Err ==> *final(m) == *old(m),
    {
        let res = self.validate(m);
        if res.is_ok() {
            self.perform_unchecked(m);
        }
        res
    }
}

} // verus!
