//! The one source of randomness.

use rand::Rng;
use vstd::prelude::*;

verus! {

/// `rand::Rng::gen_range` on the generator that `rand::thread_rng` gives for
/// the current thread: some number that is at least `low` and less than
/// `high`. The call panics unless `low < high`, hence the precondition.
/// Nothing else is known of the number, and two calls need not agree. The
/// generator is seeded from the operating system when a thread first asks
/// for it, and the call does not return where that fails.
#[verifier::external_body]
pub(crate) fn random_in(low: u32, high: u32) -> (n: u32)
    requires
        low < high,
    ensures
        low <= n < high,
{
    rand::thread_rng().gen_range(low, high)
}

/// A roll of a hundred sided die.
pub fn roll_d100() -> (roll: u32)
    ensures
        1 <= roll <= 100,
{
    random_in(1, 101)
}

} // verus!
