//! The one place where the library asks for randomness.

use rand::Rng;
use vstd::prelude::*;

verus! {

/// Draws an integer between `low` and `high`, both ends counted, from the
/// thread-local generator of the `rand` crate (`rand::thread_rng` followed by
/// `Rng::gen_range` on an inclusive range).
///
/// Trusted, not proved: the value lies in the range asked for. `gen_range`
/// panics on an empty range, which `requires` rules out. Nothing is claimed
/// about which value of the range comes back, so two calls with the same
/// bounds may differ. `thread_rng` itself gives up only when the operating
/// system cannot seed it.
#[verifier::external_body]
pub(crate) fn random_in(low: usize, high: usize) -> (value: usize)
    requires
        low <= high,
    ensures
        low <= value <= high,
{
    rand::thread_rng().gen_range(low..=high)
}

} // verus!
