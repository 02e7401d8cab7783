//! Random height sampling for the procedural height-field surface.
//!
//! The draws come from the `rand` crate's thread-local generator.  A
//! draw is not a function of its arguments, so the contracts state only
//! what holds of every outcome: the sampled height lies in the
//! requested range.

use vstd::prelude::*;

#[allow(unused_imports)]
use rand::Rng;

verus! {

/// The `rand` crate's thread-local generator handle.
#[verifier::external_type_specification]
#[verifier::external_body]
pub struct ExThreadRng(rand::rngs::ThreadRng);

/// Relies on rand::thread_rng: a fresh handle to the thread-local
/// generator.  Nothing can be promised of the values it will yield.
#[verifier::external_body]
pub(crate) fn fresh_rng() -> rand::rngs::ThreadRng {
    rand::thread_rng()
}

/// Relies on rand::Rng::gen_range over the half-open integer range
/// `0..max`, which panics only on an empty range and always returns a
/// value inside the range.
#[verifier::external_body]
pub(crate) fn random_below(rng: &mut rand::rngs::ThreadRng, max: i64) -> (h: i64)
    requires
        max >= 1,
    ensures
        0 <= h < max,
{
    rng.gen_range(0..max)
}

} // verus!
