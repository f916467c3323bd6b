//! Reconnect supervision for stream sessions.
//!
//! A stream session is either connected or reconnecting.  Any transport
//! error moves it to reconnecting; while there, connection attempts are
//! retried without bound, each failed attempt counted; a new peer handle
//! moves it back to connected.  The counters survive the whole recovery
//! untouched: reconnection never resets them.

use vstd::prelude::*;

use crate::stats::{RoundRecord, SessionStats};

verus! {

/// Whether the session holds a live transport handle, or is retrying to
/// obtain a new one (with the number of failed attempts so far).
#[derive(Clone, Copy, Debug, PartialEq, Eq, Structural)]
pub enum ConnState {
    Connected,
    Reconnecting { attempts: u64 },
}

/// The supervised state of one stream session: its counters and its
/// connection state.  The transport handle itself lives with the caller.
#[derive(Clone, Copy, Debug, PartialEq, Eq, Structural)]
pub struct StreamSession {
    pub stats: SessionStats,
    pub conn: ConnState,
}

/// A transport error moves the session to reconnecting with no attempts
/// made yet; the counters stay.
pub open spec fn on_transport_error_spec(s: StreamSession) -> StreamSession {
    StreamSession { conn: ConnState::Reconnecting { attempts: 0 }, ..s }
}

/// A failed connection attempt counts one more attempt (the count saturates
/// at its machine limit); the counters stay.  Outside the reconnecting
/// state nothing changes.
pub open spec fn on_attempt_failed_spec(s: StreamSession) -> StreamSession {
    match s.conn {
        ConnState::Reconnecting { attempts } => StreamSession {
            conn: ConnState::Reconnecting {
                attempts: if attempts < u64::MAX {
                    (attempts + 1) as u64
                } else {
                    attempts
                },
            },
            ..s
        },
        ConnState::Connected => s,
    }
}

/// A new peer handle moves the session back to connected; the counters stay.
pub open spec fn on_reconnected_spec(s: StreamSession) -> StreamSession {
    StreamSession { conn: ConnState::Connected, ..s }
}

/// The session state after a transport error and n failed attempts.
pub open spec fn after_failed_attempts(s: StreamSession, n: nat) -> StreamSession
    decreases n,
{
    if n == 0 {
        s
    } else {
        on_attempt_failed_spec(after_failed_attempts(s, (n - 1) as nat))
    }
}

impl StreamSession {
    /// A freshly connected session with zeroed counters.
    pub fn new() -> (s: StreamSession)
        ensures
            s.conn is Connected,
            s.stats.successes == 0,
            s.stats.failures == 0,
            !s.stats.ever_succeeded,
    {
        StreamSession { stats: SessionStats::new(), conn: ConnState::Connected }
    }

    /// Records one round outcome against the session's counters; the
    /// connection state is untouched.
    pub fn record_round(&mut self, success: bool) -> (r: RoundRecord)
        requires
            success ==> old(self).stats.successes < u64::MAX,
            !success ==> old(self).stats.failures < u64::MAX,
        ensures
            final(self).conn == old(self).conn,
            success ==> ({
                &&& final(self).stats.successes == old(self).stats.successes + 1
                &&& final(self).stats.failures == old(self).stats.failures
                &&& final(self).stats.ever_succeeded
            }),
            !success ==> ({
                &&& final(self).stats.successes == old(self).stats.successes
                &&& final(self).stats.failures == old(self).stats.failures + 1
                &&& final(self).stats.ever_succeeded == old(self).stats.ever_succeeded
            }),
            r.emit_summary == if success {
                final(self).stats.successes % crate::REFRESH_INTERVAL == 0
            } else {
                true
            },
            r.first_success == (success && !old(self).stats.ever_succeeded),
    {
        self.stats.record(success)
    }

    /// A round surfaced a transport error: enter the reconnecting state.
    pub fn on_transport_error(&mut self)
        requires
            old(self).conn is Connected,
        ensures
            *final(self) == on_transport_error_spec(*old(self)),
    {
        self.conn = ConnState::Reconnecting { attempts: 0 };
    }

    /// A connection attempt failed: stay reconnecting, count the attempt.
    pub fn on_attempt_failed(&mut self)
        requires
            old(self).conn is Reconnecting,
        ensures
            *final(self) == on_attempt_failed_spec(*old(self)),
    {
        match self.conn {
            ConnState::Reconnecting { attempts } => {
                let next: u64 = if attempts < u64::MAX {
                    attempts + 1
                } else {
                    attempts
                };
                self.conn = ConnState::Reconnecting { attempts: next };
            },
            ConnState::Connected => {},
        }
    }

    /// A new peer handle was obtained: resume the round loop, counters
    /// intact.
    pub fn on_reconnected(&mut self)
        requires
            old(self).conn is Reconnecting,
        ensures
            *final(self) == on_reconnected_spec(*old(self)),
            final(self).conn is Connected,
            final(self).stats == old(self).stats,
    {
        self.conn = ConnState::Connected;
    }
}

/// Recovery preserves the counters: after a transport error, any number of
/// failed connection attempts, and a successful reconnection, the session
/// is connected again and its counters are exactly what they were before
/// the error — never reset.
pub proof fn lemma_reconnect_preserves_stats(s: StreamSession, n: nat)
    ensures
        on_reconnected_spec(
            after_failed_attempts(on_transport_error_spec(s), n),
        ).conn is Connected,
        on_reconnected_spec(after_failed_attempts(on_transport_error_spec(s), n)).stats == s.stats,
{
    lemma_attempts_preserve_stats(on_transport_error_spec(s), n);
}

/// Failed attempts never touch the counters.
proof fn lemma_attempts_preserve_stats(s: StreamSession, n: nat)
    ensures
        after_failed_attempts(s, n).stats == s.stats,
    decreases n,
{
    if n > 0 {
        lemma_attempts_preserve_stats(s, (n - 1) as nat);
    }
}

} // verus!
