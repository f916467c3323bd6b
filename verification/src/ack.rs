//! Acknowledgment tags: fixed 4-byte values a receiver answers with.
//!
//! The positive tag is the bytes of "ACK" followed by a null terminator; the
//! negative tag is the four bytes of "NACK".  Tags are compared byte-exact,
//! never partially.

use vstd::prelude::*;

verus! {

/// The positive acknowledgment tag: "ACK" plus a trailing null byte.
pub open spec fn positive_tag_spec() -> Seq<u8> {
    seq![65u8, 67u8, 75u8, 0u8]
}

/// The negative acknowledgment tag: the four bytes of "NACK".
pub open spec fn negative_tag_spec() -> Seq<u8> {
    seq![78u8, 65u8, 67u8, 75u8]
}

/// Builds the positive acknowledgment tag.
pub fn positive_tag() -> (r: Vec<u8>)
    ensures
        r@ == positive_tag_spec(),
{
    let mut r: Vec<u8> = Vec::with_capacity(4);
    r.push(65);
    r.push(67);
    r.push(75);
    r.push(0);
    proof {
        assert(r@ =~= positive_tag_spec());
    }
    r
}

/// Builds the negative acknowledgment tag.
pub fn negative_tag() -> (r: Vec<u8>)
    ensures
        r@ == negative_tag_spec(),
{
    let mut r: Vec<u8> = Vec::with_capacity(4);
    r.push(78);
    r.push(65);
    r.push(67);
    r.push(75);
    proof {
        assert(r@ =~= negative_tag_spec());
    }
    r
}

/// True exactly when the received bytes are the positive tag, compared
/// byte-exact over the whole buffer.
pub fn is_positive_tag(ack: &Vec<u8>) -> (r: bool)
    ensures
        r == (ack@ == positive_tag_spec()),
{
    if ack.len() != 4 {
        proof {
            assert(ack@ != positive_tag_spec());
        }
        return false;
    }
    let r = ack[0] == 65 && ack[1] == 67 && ack[2] == 75 && ack[3] == 0;
    proof {
        if r {
            assert(ack@ =~= positive_tag_spec());
        } else {
            assert(ack@ != positive_tag_spec());
        }
    }
    r
}

} // verus!
