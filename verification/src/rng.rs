//! Calls into the `rand` crate.

use rand::Rng;
use vstd::prelude::*;

verus! {

/// Calls `rand::rng().random_range(0..bound)` (rand 0.9): a number drawn from
/// the thread-local generator. The contract claims only what rand documents
/// for an exclusive range, that the draw lies in `0..bound`; which number
/// comes back is left open. `random_range` panics on an empty range, hence
/// `bound > 0`.
#[verifier::external_body]
pub(crate) fn random_below(bound: u32) -> (r: u32)
    requires
        bound > 0,
    ensures
        r < bound,
{
    rand::rng().random_range(0..bound)
}

} // verus!
