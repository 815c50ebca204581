//! Uniform random selection over a store's full extent: a count is read
//! first, then a uniformly drawn offset picks one record, so every record
//! has equal probability whatever the store holds.

use vstd::prelude::*;

verus! {

/// Relies on rand::random_range: a uniformly distributed integer below `n`
/// from the thread-local generator. The call panics on an empty range, so
/// `n` must be positive; nothing more can be promised of a random value
/// than its bound.
#[verifier::external_body]
pub(crate) fn random_below(n: usize) -> (r: usize)
    requires
        n > 0,
    ensures
        r < n,
{
    rand::random_range(0..n)
}

} // verus!
