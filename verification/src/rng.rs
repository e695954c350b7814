//! The simulation's only source of randomness: a uniform integer draw, used
//! for the vertical offset of a freshly spawned pipe.

use vstd::prelude::*;

use rand::Rng;

verus! {

/// Relies on rand's `Rng::gen_range` on the thread-local generator: the
/// sample lies in the half-open range `lo..hi`, uniformly distributed, and
/// the call panics only on an empty range, which the precondition rules out.
/// Nothing is promised about which value comes back.
#[verifier::external_body]
pub(crate) fn random_in_range(lo: i64, hi: i64) -> (r: i64)
    requires
        lo < hi,
    ensures
        lo <= r < hi,
{
    rand::thread_rng().gen_range(lo..hi)
}

} // verus!
