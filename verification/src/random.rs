//! The source of the random bytes that the random instruction consumes.

use vstd::prelude::*;
use rand::Rng;

verus! {

/// Draws a byte from the thread-local generator of the `rand` crate, with
/// `Rng::gen_range(0, 255)` on `rand::thread_rng()`. The range is half-open,
/// so the byte is below 255; which byte comes is up to the generator, and
/// nothing more is claimed of it.
#[verifier::external_body]
pub(crate) fn random_byte() -> (byte: u8)
    ensures
        byte < 255,
{
    let mut rng = rand::thread_rng();
    rng.gen_range(0u8, 255u8)
}

} // verus!
