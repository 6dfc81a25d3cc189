//! Comparison whose running time does not depend on where two digests differ.
use subtle::ConstantTimeEq;
use vstd::prelude::*;

verus! {

/// Calls `subtle::ConstantTimeEq::ct_eq` on the two digests, as slices, and
/// turns the `Choice` it returns into a `bool`.
///
/// Claimed of it: the answer is `true` exactly when both digests hold the same
/// bytes in the same order. That the comparison takes the same time whatever
/// the bytes are is promised by the outside crate and is not stated here.
#[verifier::external_body]
pub(crate) fn digests_equal(left: &[u8; 32], right: &[u8; 32]) -> (equal: bool)
    ensures
        equal == (left@ == right@),
{
    bool::from(left[..].ct_eq(&right[..]))
}

} // verus!
