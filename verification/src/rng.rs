//! Trusted boundary to the pseudo-random number source.

use vstd::prelude::*;
use rand::Rng;

verus! {

/// Declares rand's thread-local generator handle so it can sit in a field;
/// its value is opaque to the verifier.
#[verifier::external_type_specification]
#[verifier::external_body]
pub struct ExThreadRng(rand::rngs::ThreadRng);

/// Relies on rand::thread_rng: returns a handle to the calling thread's
/// generator. Nothing is promised of the values it will produce.
#[verifier::external_body]
pub fn new_thread_rng() -> rand::rngs::ThreadRng {
    rand::thread_rng()
}

/// Relies on rand's Rng::gen_range over a half-open `i32` range: the draw
/// lies in `[lo, hi)`. The call panics on an empty range, which the
/// precondition rules out; beyond its bounds the draw is unconstrained.
#[verifier::external_body]
pub(crate) fn gen_range_i32(rng: &mut rand::rngs::ThreadRng, lo: i32, hi: i32) -> (r: i32)
    requires
        lo < hi,
    ensures
        lo <= r < hi,
{
    rng.gen_range(lo..hi)
}

} // verus!
