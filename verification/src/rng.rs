//! Randomness for initializing the store, from the `rand` crate.
//!
//! The store draws positions, velocities and colors from the thread-local
//! generator. Nothing is assumed of which value comes out beyond its range.

use vstd::prelude::*;
use rand::rngs::ThreadRng;
use rand::Rng;

verus! {

#[verifier::external_type_specification]
#[verifier::external_body]
pub struct ExThreadRng(ThreadRng);

/// Relies on rand::thread_rng: a handle to the thread-local generator.
#[verifier::external_body]
pub(crate) fn fresh_rng() -> ThreadRng {
    rand::thread_rng()
}

/// Relies on rand::Rng::gen_range on a `Range<u64>`: a uniformly random
/// value in `[lo, hi)`. It panics on an empty range, so one is required
/// nonempty here; nothing is assumed about which value comes out.
#[verifier::external_body]
pub(crate) fn rng_range(rng: &mut ThreadRng, lo: u64, hi: u64) -> (r: u64)
    requires
        lo < hi,
    ensures
        lo <= r < hi,
{
    rng.gen_range(lo..hi)
}

} // verus!
