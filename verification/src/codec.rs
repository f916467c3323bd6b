//! Checksum codec: digest, frame, split, verify.
//!
//! A frame is the payload bytes followed by the 32-byte SHA-256 digest of
//! those payload bytes.  `split` undoes `frame`; `verify` recomputes the
//! digest and compares it byte for byte.

use vstd::prelude::*;

use crate::CHECKSUM_LEN;

use sha2::{Digest, Sha256};

verus! {

/// The SHA-256 digest of a byte sequence, named but not defined here: the
/// digest is computed by the sha2 crate and depends on the input bytes alone.
pub uninterp spec fn sha256_of(data: Seq<u8>) -> Seq<u8>;

/// Relies on sha2::Sha256 (via the Digest trait): the digest is a pure
/// function of the input bytes and is always 32 bytes long.
#[verifier::external_body]
fn sha256(data: &[u8]) -> (r: Vec<u8>)
    ensures
        r@ == sha256_of(data@),
        r@.len() == CHECKSUM_LEN,
{
    let mut hasher = Sha256::new();
    hasher.update(data);
    hasher.finalize().to_vec()
}

/// A checksum matches a data sequence exactly when it is that sequence's
/// SHA-256 digest.
pub open spec fn checksum_matches(data: Seq<u8>, checksum: Seq<u8>) -> bool {
    checksum == sha256_of(data)
}

/// Error returned when a received buffer is too short to hold a checksum.
#[derive(Clone, Copy, Debug, PartialEq, Eq, Structural)]
pub enum CodecError {
    BufferTooShort,
}

/// Computes the checksum of a payload: its SHA-256 digest.
pub fn digest(payload: &Vec<u8>) -> (c: Vec<u8>)
    ensures
        c@ == sha256_of(payload@),
        c@.len() == CHECKSUM_LEN,
{
    sha256(payload.as_slice())
}

/// Builds the wire frame: the payload bytes followed by the checksum bytes.
/// The frame's length is always the payload's length plus the checksum's.
pub fn frame(payload: &Vec<u8>, checksum: &Vec<u8>) -> (f: Vec<u8>)
    requires
        payload@.len() + checksum@.len() <= usize::MAX,
    ensures
        f@ == payload@ + checksum@,
        f@.len() == payload@.len() + checksum@.len(),
{
    let mut f: Vec<u8> = Vec::with_capacity(payload.len() + checksum.len());
    f.extend_from_slice(payload.as_slice());
    f.extend_from_slice(checksum.as_slice());
    proof {
        assert(f@ =~= payload@ + checksum@);
    }
    f
}

/// Splits a received buffer into its data and checksum parts: the last 32
/// bytes are the checksum, everything before them is the data.  Fails, with
/// no panic, on a buffer shorter than 32 bytes.
pub fn split(buffer: &Vec<u8>) -> (r: Result<(Vec<u8>, Vec<u8>), CodecError>)
    ensures
        buffer@.len() >= CHECKSUM_LEN ==> ({
            &&& r is Ok
            &&& r->Ok_0.0@ == buffer@.subrange(0, buffer@.len() - CHECKSUM_LEN)
            &&& r->Ok_0.1@ == buffer@.subrange(buffer@.len() - CHECKSUM_LEN, buffer@.len() as int)
        }),
        buffer@.len() < CHECKSUM_LEN ==> r == Result::<(Vec<u8>, Vec<u8>), CodecError>::Err(
            CodecError::BufferTooShort,
        ),
{
    if buffer.len() < CHECKSUM_LEN {
        return Err(CodecError::BufferTooShort);
    }
    let cut = buffer.len() - CHECKSUM_LEN;
    let mut data: Vec<u8> = Vec::with_capacity(cut);
    let mut i: usize = 0;
    while i < cut
        invariant
            i <= cut,
            cut == buffer@.len() - CHECKSUM_LEN,
            data@ == buffer@.subrange(0, i as int),
        decreases cut - i,
    {
        data.push(buffer[i]);
        proof {
            assert(data@ =~= buffer@.subrange(0, i + 1));
        }
        i += 1;
    }
    let mut checksum: Vec<u8> = Vec::with_capacity(CHECKSUM_LEN);
    let mut j: usize = cut;
    while j < buffer.len()
        invariant
            cut <= j <= buffer@.len(),
            cut == buffer@.len() - CHECKSUM_LEN,
            checksum@ == buffer@.subrange(cut as int, j as int),
        decreases buffer@.len() - j,
    {
        checksum.push(buffer[j]);
        proof {
            assert(checksum@ =~= buffer@.subrange(cut as int, j + 1));
        }
        j += 1;
    }
    Ok((data, checksum))
}

/// Recomputes the digest over the data and compares it byte for byte to the
/// received checksum: true exactly when the checksum is the data's digest.
pub fn verify(data: &Vec<u8>, checksum: &Vec<u8>) -> (r: bool)
    ensures
        r == checksum_matches(data@, checksum@),
{
    let computed = digest(data);
    if computed.len() != checksum.len() {
        return false;
    }
    let mut i: usize = 0;
    while i < computed.len()
        invariant
            i <= computed@.len(),
            computed@.len() == checksum@.len(),
            computed@ == sha256_of(data@),
            forall|k: int| 0 <= k < i ==> computed@[k] == checksum@[k],
        decreases computed@.len() - i,
    {
        if computed[i] != checksum[i] {
            return false;
        }
        i += 1;
    }
    proof {
        assert(checksum@ =~= computed@);
    }
    true
}

/// Every payload verifies against its own digest: `verify(p, digest(p))`
/// returns true, since `digest` returns exactly `sha256_of(p)` and `verify`
/// returns whether the checksum equals `sha256_of(p)`.
pub proof fn lemma_verify_own_digest(payload: Seq<u8>)
    ensures
        checksum_matches(payload, sha256_of(payload)),
{
}

/// A frame is always as long as its payload plus the checksum length, and
/// splitting it (last 32 bytes as checksum, the rest as data) gives back
/// exactly the payload and the checksum that built it.
pub proof fn lemma_frame_split_round_trip(payload: Seq<u8>, checksum: Seq<u8>)
    requires
        checksum.len() == CHECKSUM_LEN,
    ensures
        (payload + checksum).len() == payload.len() + CHECKSUM_LEN,
        (payload + checksum).subrange(
            0,
            (payload + checksum).len() - CHECKSUM_LEN,
        ) == payload,
        (payload + checksum).subrange(
            (payload + checksum).len() - CHECKSUM_LEN,
            (payload + checksum).len() as int,
        ) == checksum,
{
    let f = payload + checksum;
    assert(f.subrange(0, f.len() - CHECKSUM_LEN) =~= payload);
    assert(f.subrange(f.len() - CHECKSUM_LEN, f.len() as int) =~= checksum);
}

} // verus!
