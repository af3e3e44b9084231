//! Randomness, from `rand`'s thread-local generator.

use rand::{Rng, RngCore};
use vstd::prelude::*;

verus! {

/// `n` random bytes: `rand::thread_rng().fill_bytes` on a buffer of `n`
/// bytes. Claimed: the result is `n` bytes long; nothing of its contents.
#[verifier::external_body]
pub(crate) fn random_bytes(n: usize) -> (r: Vec<u8>)
    ensures
        r@.len() == n,
{
    let mut v = vec![0u8; n];
    rand::thread_rng().fill_bytes(&mut v);
    v
}

/// A random 28-byte array: `rand::thread_rng().gen()`. Nothing is claimed
/// of its contents.
#[verifier::external_body]
pub(crate) fn random_array28() -> (r: [u8; 28]) {
    rand::thread_rng().gen()
}

} // verus!
