//! Random choices.
use vstd::prelude::*;

verus! {

/// `rand::random_range(0..n)`: a number drawn from the thread-local
/// generator, below `n`. `rand` panics on an empty range, so `n` is non-zero.
/// Which number comes out is left open.
#[verifier::external_body]
pub(crate) fn random_below(n: usize) -> (r: usize)
    requires
        n > 0,
    ensures
        r < n,
{
    rand::random_range(0..n)
}

} // verus!
