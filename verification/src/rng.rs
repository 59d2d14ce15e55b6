//! The simulation's single source of randomness.

use vstd::prelude::*;

verus! {

/// Relies on rand::Rng::gen_range on the thread-local generator: a draw from
/// `0..bound` lies below `bound`; the range is non-empty, so the call does
/// not panic. Nothing else is assumed of the draw.
#[verifier::external_body]
pub(crate) fn random_below(bound: u64) -> (r: u64)
    requires
        bound > 0,
    ensures
        r < bound,
{
    rand::Rng::gen_range(&mut rand::thread_rng(), 0..bound)
}

} // verus!
