//! The trusted boundary around the process random number generator. Nothing
//! is promised of the drawn values: every caller must hold for every
//! possible outcome.

use vstd::prelude::*;

verus! {

/// Relies on `rand::random::<u8>`: one byte from the thread-local generator.
#[verifier::external_body]
pub(crate) fn random_u8() -> u8 {
    rand::random::<u8>()
}

/// Relies on `rand::random::<u32>`: one 32-bit draw from the thread-local
/// generator.
#[verifier::external_body]
pub(crate) fn random_u32() -> u32 {
    rand::random::<u32>()
}

/// Relies on `rand::random::<bool>`: a coin flip, true with probability 1/2.
#[verifier::external_body]
pub(crate) fn random_bool() -> bool {
    rand::random::<bool>()
}

} // verus!
