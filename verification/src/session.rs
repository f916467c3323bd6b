//! Round decision logic for a validation session.
//!
//! A round is one send/verify/acknowledge cycle.  The transport (stream or
//! datagram) performs the reads, writes and timeout waits outside this
//! library and hands the resulting buffers and events in as plain values;
//! every decision a round makes on those values is taken here.

use vstd::prelude::*;

use crate::ack::{is_positive_tag, negative_tag, positive_tag, negative_tag_spec,
    positive_tag_spec};
use crate::codec::{checksum_matches, digest, frame, sha256_of, split, verify, CodecError};
use crate::CHECKSUM_LEN;

verus! {

/// The outcome of one round.  A failure is recoverable: the loop counts it
/// and goes on.  A fatal integrity failure ends the session; it arises only
/// from a checksum mismatch or negative acknowledgment while the session was
/// configured to abort on integrity failure.
#[derive(Clone, Copy, Debug, PartialEq, Eq, Structural)]
pub enum RoundOutcome {
    Success,
    Failure,
    FatalIntegrity,
}

/// What a sender round concludes from the acknowledgment bytes it read:
/// success on the exact positive tag; anything else is an integrity failure,
/// fatal exactly when the session aborts on failure.
pub open spec fn ack_outcome_spec(ack: Seq<u8>, abort_on_fail: bool) -> RoundOutcome {
    if ack == positive_tag_spec() {
        RoundOutcome::Success
    } else if abort_on_fail {
        RoundOutcome::FatalIntegrity
    } else {
        RoundOutcome::Failure
    }
}

/// Builds the frame a sender round transmits: the payload followed by its
/// SHA-256 checksum.
pub fn prepare_frame(payload: &Vec<u8>) -> (f: Vec<u8>)
    requires
        payload@.len() + CHECKSUM_LEN <= usize::MAX,
    ensures
        f@ == payload@ + sha256_of(payload@),
        f@.len() == payload@.len() + CHECKSUM_LEN,
{
    let checksum = digest(payload);
    frame(payload, &checksum)
}

/// Decides a sender round from the acknowledgment bytes the transport read.
pub fn evaluate_ack(ack: &Vec<u8>, abort_on_fail: bool) -> (o: RoundOutcome)
    ensures
        o == ack_outcome_spec(ack@, abort_on_fail),
{
    if is_positive_tag(ack) {
        RoundOutcome::Success
    } else if abort_on_fail {
        RoundOutcome::FatalIntegrity
    } else {
        RoundOutcome::Failure
    }
}

/// What a datagram sender's timeout-bounded wait produced: an acknowledgment
/// datagram, or nothing within the timeout.  A socket error is not an event;
/// the transport propagates it as fatal before any decision is taken.
#[derive(Debug)]
pub enum AckWait {
    Received(Vec<u8>),
    TimedOut,
}

/// The outcome of a datagram sender round for each wait result: a received
/// tag is judged as on a stream; a timeout is a plain recoverable failure,
/// never fatal, whatever the abort configuration (the peer may simply not be
/// listening yet).
pub open spec fn datagram_send_outcome_spec(wait: AckWait, abort_on_fail: bool) -> RoundOutcome {
    match wait {
        AckWait::Received(ack) => ack_outcome_spec(ack@, abort_on_fail),
        AckWait::TimedOut => RoundOutcome::Failure,
    }
}

/// Decides a datagram sender round from what the timeout-bounded wait gave.
pub fn datagram_send_outcome(wait: &AckWait, abort_on_fail: bool) -> (o: RoundOutcome)
    ensures
        o == datagram_send_outcome_spec(*wait, abort_on_fail),
{
    match wait {
        AckWait::Received(ack) => evaluate_ack(ack, abort_on_fail),
        AckWait::TimedOut => RoundOutcome::Failure,
    }
}

/// An acknowledgment timeout is always recoverable: for every abort
/// configuration the round resolves to a plain failure, not a fatal one.
pub proof fn lemma_timeout_is_recoverable(abort_on_fail: bool)
    ensures
        datagram_send_outcome_spec(AckWait::TimedOut, abort_on_fail) == RoundOutcome::Failure,
{
}

/// What a receiver round concluded and must answer: the round outcome, and
/// the acknowledgment tag to write back.
#[derive(Debug)]
pub struct ReceiverVerdict {
    pub outcome: RoundOutcome,
    pub reply: Vec<u8>,
}

/// The outcome a receiver derives from whether the received checksum
/// matched: mirror of the sender's judgment of the tag it will be sent.
pub open spec fn verdict_outcome_spec(matched: bool, abort_on_fail: bool) -> RoundOutcome {
    if matched {
        RoundOutcome::Success
    } else if abort_on_fail {
        RoundOutcome::FatalIntegrity
    } else {
        RoundOutcome::Failure
    }
}

/// Processes one received buffer on the receiver side: splits it into data
/// and checksum, verifies the checksum, and chooses the tag to answer with.
/// The positive tag answers a match, the negative tag a mismatch; a buffer
/// too short to hold a checksum is a defined error, not a panic.
pub fn receiver_process(buffer: &Vec<u8>, abort_on_fail: bool) -> (r: Result<
    ReceiverVerdict,
    CodecError,
>)
    ensures
        buffer@.len() >= CHECKSUM_LEN ==> ({
            let data = buffer@.subrange(0, buffer@.len() - CHECKSUM_LEN);
            let received = buffer@.subrange(buffer@.len() - CHECKSUM_LEN, buffer@.len() as int);
            &&& r is Ok
            &&& r->Ok_0.outcome == verdict_outcome_spec(
                checksum_matches(data, received),
                abort_on_fail,
            )
            &&& r->Ok_0.reply@ == if checksum_matches(data, received) {
                positive_tag_spec()
            } else {
                negative_tag_spec()
            }
        }),
        buffer@.len() < CHECKSUM_LEN ==> r is Err && r->Err_0 == CodecError::BufferTooShort,
{
    let (data, received) = match split(buffer) {
        Ok(parts) => parts,
        Err(e) => {
            return Err(e);
        },
    };
    if verify(&data, &received) {
        Ok(ReceiverVerdict { outcome: RoundOutcome::Success, reply: positive_tag() })
    } else if abort_on_fail {
        Ok(ReceiverVerdict { outcome: RoundOutcome::FatalIntegrity, reply: negative_tag() })
    } else {
        Ok(ReceiverVerdict { outcome: RoundOutcome::Failure, reply: negative_tag() })
    }
}

/// What a datagram receiver's timeout-bounded wait produced: an inbound
/// datagram, or nothing within the timeout.
#[derive(Debug)]
pub enum FrameWait {
    Received(Vec<u8>),
    TimedOut,
}

/// The receiver side of one datagram round: the outcome, and the reply tag
/// to send back to the datagram's originating address, if one was received.
#[derive(Debug)]
pub struct ReceiverStep {
    pub outcome: RoundOutcome,
    pub reply: Option<Vec<u8>>,
}

/// Decides a datagram receiver round.  A timeout is a plain recoverable
/// failure with nothing to answer; a received datagram is split, verified
/// and answered exactly as on a stream.
pub fn datagram_receive_step(wait: &FrameWait, abort_on_fail: bool) -> (r: Result<
    ReceiverStep,
    CodecError,
>)
    ensures
        wait is TimedOut ==> ({
            &&& r is Ok
            &&& r->Ok_0.outcome == RoundOutcome::Failure
            &&& r->Ok_0.reply is None
        }),
        wait is Received && wait->Received_0@.len() >= CHECKSUM_LEN ==> ({
            let buffer = wait->Received_0@;
            let data = buffer.subrange(0, buffer.len() - CHECKSUM_LEN);
            let received = buffer.subrange(buffer.len() - CHECKSUM_LEN, buffer.len() as int);
            &&& r is Ok
            &&& r->Ok_0.outcome == verdict_outcome_spec(
                checksum_matches(data, received),
                abort_on_fail,
            )
            &&& r->Ok_0.reply is Some
            &&& r->Ok_0.reply->0@ == if checksum_matches(data, received) {
                positive_tag_spec()
            } else {
                negative_tag_spec()
            }
        }),
        wait is Received && wait->Received_0@.len() < CHECKSUM_LEN ==> r is Err && r->Err_0
            == CodecError::BufferTooShort,
{
    match wait {
        FrameWait::TimedOut => Ok(
            ReceiverStep { outcome: RoundOutcome::Failure, reply: None },
        ),
        FrameWait::Received(buffer) => {
            let verdict = receiver_process(buffer, abort_on_fail)?;
            Ok(ReceiverStep { outcome: verdict.outcome, reply: Some(verdict.reply) })
        },
    }
}

} // verus!
