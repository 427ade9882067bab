//! Random bytes, drawn from the `rand` crate's thread-local generator.

use vstd::prelude::*;
use rand::Rng;
use rand::rngs::ThreadRng;

verus! {

/// `rand::rngs::ThreadRng`, a handle to the thread-local generator. Nothing
/// is known of what it holds.
#[verifier::external_type_specification]
#[verifier::external_body]
pub struct ExThreadRng(rand::rngs::ThreadRng);

/// `rand::thread_rng`: hands out the thread-local generator. Nothing is
/// claimed of the handle. The generator is seeded from the operating system
/// on first use.
pub assume_specification[ rand::thread_rng ]() -> (rng: rand::rngs::ThreadRng);

/// `rand::Rng::gen_range` on the inclusive range from 0 to 255: the sample
/// lies in that range. Which value comes is left open.
#[verifier::external_body]
fn sample_byte_range(rng: &mut ThreadRng) -> (sample: i32)
    ensures
        0 <= sample <= 255,
{
    rng.gen_range(0..=255)
}

/// A byte drawn uniformly at random.
pub fn random_byte() -> (byte: u8) {
    let mut rng = rand::thread_rng();
    let sample: i32 = sample_byte_range(&mut rng);
    sample as u8
}

} // verus!
