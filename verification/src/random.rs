//! The random draws that the shuffle takes from the `rand` crate.

use rand::Rng;
use vstd::prelude::*;

verus! {

/// `rand::rngs::ThreadRng`, the handle to a thread's generator: an opaque
/// value that is only carried from one call to the next.
#[verifier::external_type_specification]
#[verifier::external_body]
pub struct ExThreadRng(rand::rngs::ThreadRng);

/// `rand::thread_rng`: a handle to the calling thread's random generator.
///
/// Nothing is claimed of the handle. The call panics where the operating
/// system gives the thread no entropy to seed its generator with.
#[verifier::external_body]
pub(crate) fn thread_generator() -> rand::rngs::ThreadRng {
    rand::thread_rng()
}

/// `rand::Rng::gen` for `u32`: the next number of the generator.
///
/// Nothing is claimed of the number: any `u32` may come back, and two calls
/// may differ.
#[verifier::external_body]
pub(crate) fn next_draw(rng: &mut rand::rngs::ThreadRng) -> u32 {
    rng.gen()
}

} // verus!
