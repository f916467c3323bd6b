use tcp_udp_validator::ack::{is_positive_tag, negative_tag, positive_tag};
use tcp_udp_validator::codec::{digest, CodecError};
use tcp_udp_validator::payload::generate_payload;
use tcp_udp_validator::session::{
    datagram_receive_step, datagram_send_outcome, evaluate_ack, prepare_frame, receiver_process,
    AckWait, FrameWait, RoundOutcome,
};

#[test]
fn tags_are_the_fixed_four_byte_literals() {
    assert_eq!(positive_tag(), b"ACK\0".to_vec());
    assert_eq!(negative_tag(), b"NACK".to_vec());
}

#[test]
fn positive_tag_is_matched_byte_exact_only() {
    assert!(is_positive_tag(&positive_tag()));
    assert!(!is_positive_tag(&negative_tag()));
    // A prefix, an extension, or a one-byte change never match.
    assert!(!is_positive_tag(&b"ACK".to_vec()));
    assert!(!is_positive_tag(&b"ACK\0\0".to_vec()));
    assert!(!is_positive_tag(&b"ACk\0".to_vec()));
    assert!(!is_positive_tag(&Vec::new()));
}

#[test]
fn evaluate_ack_judges_each_tag() {
    assert_eq!(evaluate_ack(&positive_tag(), false), RoundOutcome::Success);
    assert_eq!(evaluate_ack(&positive_tag(), true), RoundOutcome::Success);
    assert_eq!(evaluate_ack(&negative_tag(), false), RoundOutcome::Failure);
    assert_eq!(evaluate_ack(&negative_tag(), true), RoundOutcome::FatalIntegrity);
    // A mangled tag counts as a failure just like the negative one.
    assert_eq!(evaluate_ack(&b"XYZ\0".to_vec(), false), RoundOutcome::Failure);
}

#[test]
fn prepare_frame_appends_the_digest() {
    let payload = generate_payload();
    let f = prepare_frame(&payload);
    assert_eq!(f.len(), 1056);
    assert_eq!(&f[..1024], &payload[..]);
    assert_eq!(&f[1024..], &digest(&payload)[..]);
}

// End-to-end scenario: a frame over 1024 zero bytes delivered intact is
// acknowledged positively and both rounds succeed.
#[test]
fn round_trip_intact_frame_succeeds() {
    let payload = vec![0u8; 1024];
    let f = prepare_frame(&payload);
    let verdict = receiver_process(&f, false).unwrap();
    assert_eq!(verdict.outcome, RoundOutcome::Success);
    assert_eq!(verdict.reply, positive_tag());
    assert_eq!(evaluate_ack(&verdict.reply, false), RoundOutcome::Success);
}

// End-to-end scenario: one byte of the data slice flipped in transit draws
// the negative tag; the sender's round fails, fatally when so configured.
#[test]
fn round_trip_corrupted_frame_fails() {
    let payload = vec![0u8; 1024];
    let mut f = prepare_frame(&payload);
    f[100] ^= 0x01;
    let verdict = receiver_process(&f, false).unwrap();
    assert_eq!(verdict.outcome, RoundOutcome::Failure);
    assert_eq!(verdict.reply, negative_tag());
    assert_eq!(evaluate_ack(&verdict.reply, false), RoundOutcome::Failure);
    assert_eq!(evaluate_ack(&verdict.reply, true), RoundOutcome::FatalIntegrity);

    let fatal = receiver_process(&f, true).unwrap();
    assert_eq!(fatal.outcome, RoundOutcome::FatalIntegrity);
    assert_eq!(fatal.reply, negative_tag());
}

#[test]
fn receiver_rejects_short_buffer_with_defined_error() {
    assert!(matches!(receiver_process(&vec![1u8; 5], false), Err(CodecError::BufferTooShort)));
}

// A datagram sender whose wait times out resolves to a plain failure, never
// an error and never a fatal outcome, whatever the abort configuration.
#[test]
fn datagram_timeout_is_a_recoverable_failure() {
    assert_eq!(datagram_send_outcome(&AckWait::TimedOut, false), RoundOutcome::Failure);
    assert_eq!(datagram_send_outcome(&AckWait::TimedOut, true), RoundOutcome::Failure);
}

// Datagram scenario: the acknowledgment misses the timeout once; the next
// round's prompt reply succeeds normally.
#[test]
fn datagram_retry_after_timeout_succeeds() {
    assert_eq!(datagram_send_outcome(&AckWait::TimedOut, false), RoundOutcome::Failure);
    let payload = generate_payload();
    let f = prepare_frame(&payload);
    let step = datagram_receive_step(&FrameWait::Received(f), false).unwrap();
    assert_eq!(step.outcome, RoundOutcome::Success);
    let reply = step.reply.unwrap();
    assert_eq!(reply, positive_tag());
    assert_eq!(datagram_send_outcome(&AckWait::Received(reply), false), RoundOutcome::Success);
}

#[test]
fn datagram_receiver_timeout_answers_nothing() {
    let step = datagram_receive_step(&FrameWait::TimedOut, true).unwrap();
    assert_eq!(step.outcome, RoundOutcome::Failure);
    assert!(step.reply.is_none());
}

#[test]
fn datagram_receiver_rejects_truncated_datagram() {
    let step = datagram_receive_step(&FrameWait::Received(vec![0u8; 10]), false);
    assert!(matches!(step, Err(CodecError::BufferTooShort)));
}
