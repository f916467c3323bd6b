//! Point-to-point data-integrity validation library.
//!
//! Each round a sender builds a frame (a pseudorandom payload followed by a
//! SHA-256 checksum of that payload), transmits it, and waits for a fixed
//! 4-byte acknowledgment tag.  The receiver splits an incoming buffer into
//! payload and checksum, verifies the checksum, and answers with the positive
//! or negative tag.  This crate holds the codec, the acknowledgment tags, the
//! round decision logic for both stream and datagram transports, the
//! reconnect state machine for stream sessions, and the round counters.
//! The transport itself (sockets, timeouts) lives outside the library and
//! hands buffers and events in as plain values.

use vstd::prelude::*;

pub mod ack;
pub mod codec;
pub mod payload;
pub mod reconnect;
pub mod session;
pub mod stats;

verus! {

/// Number of payload bytes in every frame.
pub const PAYLOAD_LEN: usize = 1024;

/// Number of checksum bytes appended to the payload (SHA-256 output size).
pub const CHECKSUM_LEN: usize = 32;

/// Total length of a well-formed frame.
pub const FRAME_LEN: usize = 1056;

/// Length of an acknowledgment tag.
pub const ACK_LEN: usize = 4;

/// Size of the receive buffer a transport reads a frame into.
pub const RECV_BUFFER_LEN: usize = 2048;

/// A summary of the counters is emitted on every failure and on every
/// REFRESH_INTERVAL-th success.
pub const REFRESH_INTERVAL: u64 = 10000;

/// Seconds a datagram round waits for a reply before giving up.
pub const ACK_TIMEOUT_SECS: u64 = 1;

} // verus!
