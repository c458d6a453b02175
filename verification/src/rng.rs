//! The one source of randomness: the demand random walk's per-iteration draw.

use vstd::prelude::*;

use rand::Rng;

verus! {

/// Smallest value the demand random walk may draw in one iteration.
pub const MIN_DEMAND_DELTA: i32 = -5;

/// Largest value the demand random walk may draw in one iteration.
pub const MAX_DEMAND_DELTA: i32 = 5;

/// Relies on rand's `Rng::gen_range` on the closed range `-5..=5`: it samples
/// a value from that (non-empty) range.
#[verifier::external_body]
pub(crate) fn random_delta() -> (r: i32)
    ensures
        MIN_DEMAND_DELTA <= r <= MAX_DEMAND_DELTA,
{
    rand::thread_rng().gen_range(MIN_DEMAND_DELTA..=MAX_DEMAND_DELTA)
}

} // verus!
