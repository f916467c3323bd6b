//! Payload generation: a fresh buffer of pseudorandom bytes per round.
//!
//! The content has no semantic meaning; it is a quality probe for the
//! network path, so a non-cryptographic random source is enough.  No state
//! survives between calls.

use vstd::prelude::*;

use crate::PAYLOAD_LEN;

verus! {

/// Relies on rand::fill (the thread-local generator): fills a byte buffer
/// with random data.  Nothing is promised of the content beyond its length.
#[verifier::external_body]
fn random_bytes(len: usize) -> (r: Vec<u8>)
    ensures
        r@.len() == len,
{
    let mut buf = vec![0u8; len];
    rand::fill(&mut buf[..]);
    buf
}

/// Produces one round's payload: exactly PAYLOAD_LEN pseudorandom bytes,
/// regenerated fresh on every call.
pub fn generate_payload() -> (p: Vec<u8>)
    ensures
        p@.len() == PAYLOAD_LEN,
{
    random_bytes(PAYLOAD_LEN)
}

} // verus!
