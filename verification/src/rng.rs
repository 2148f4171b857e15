//! The source of random bytes.

use vstd::prelude::*;

verus! {

/// Draws a byte from `rand::random`, which samples the thread-local generator
/// that the operating system seeds.
///
/// Nothing is claimed of the byte: any value may come back, and two calls may
/// differ. The one failure `rand` knows is a panic when the generator cannot be
/// seeded at its first use on a thread.
#[verifier::external_body]
pub(crate) fn random_byte() -> (byte: u8) {
    rand::random::<u8>()
}

} // verus!
