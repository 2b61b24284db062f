//! The one randomness source the simulation draws from.

use vstd::prelude::*;
use rand::Rng;

verus! {

/// Relies on `rand::Rng::gen_range` over the inclusive range `lo..=hi` on
/// the thread-local generator: the sample lies within the bounds. The call
/// panics only on an empty range, which the precondition excludes. Nothing
/// more is assumed: any value in the range may come back on any call.
#[verifier::external_body]
pub(crate) fn random_int_in(lo: i64, hi: i64) -> (r: i64)
    requires
        lo <= hi,
    ensures
        lo <= r <= hi,
{
    rand::thread_rng().gen_range(lo..=hi)
}

} // verus!
