//! The source of randomness: the thread-local generator of `rand`.

use rand::rngs::ThreadRng;
use rand::Rng;
use vstd::prelude::*;

verus! {

/// The generator of `rand` that is local to a thread. The verifier sees
/// nothing of its state.
#[verifier::external_type_specification]
#[verifier::external_body]
pub struct ExThreadRng(ThreadRng);

/// `rand::thread_rng` hands out the generator of the current thread. Nothing
/// is claimed of it. It panics where the system cannot seed the generator,
/// which no argument decides.
pub assume_specification[ rand::thread_rng ]() -> (rng: ThreadRng);

/// Draws 64 bits from the generator with `Rng::gen`, which advances it.
/// Nothing is claimed of the bits: they differ from call to call.
#[verifier::external_body]
pub(crate) fn draw_bits(rng: &mut ThreadRng) -> (bits: u64) {
    rng.gen::<u64>()
}

} // verus!
