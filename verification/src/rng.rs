//! The library's single source of randomness: an integer drawn below a bound.

use vstd::prelude::*;

verus! {

/// Relies on `rand::Rng::gen_range` over the half-open range `0..n`: the
/// result is uniformly distributed in `[0, n)`; an empty range would panic,
/// which the precondition excludes. Nothing more is assumed of the value.
#[verifier::external_body]
pub(crate) fn rand_below(n: u64) -> (r: u64)
    requires
        n >= 1,
    ensures
        r < n,
{
    rand::Rng::gen_range(&mut rand::thread_rng(), 0..n)
}

} // verus!
