//! Round counters: successes, failures, and the one-time "has ever
//! succeeded" flag.
//!
//! The counters never influence protocol decisions; they only drive the
//! periodic summary (every REFRESH_INTERVAL-th success, and every failure)
//! and the one-time connection notification on the first success.

use vstd::prelude::*;

use crate::REFRESH_INTERVAL;

verus! {

/// Success and failure counters of one session, with the flag that records
/// whether any round has ever succeeded.
#[derive(Clone, Copy, Debug, PartialEq, Eq, Structural)]
pub struct SessionStats {
    pub successes: u64,
    pub failures: u64,
    pub ever_succeeded: bool,
}

/// What recording one round outcome asks the caller to surface: whether to
/// emit a counter summary now, and whether this was the first success ever
/// (the one-time connection notification).
#[derive(Clone, Copy, Debug, PartialEq, Eq, Structural)]
pub struct RoundRecord {
    pub emit_summary: bool,
    pub first_success: bool,
}

impl SessionStats {
    /// Fresh counters: nothing succeeded, nothing failed.
    pub fn new() -> (s: SessionStats)
        ensures
            s.successes == 0,
            s.failures == 0,
            !s.ever_succeeded,
    {
        SessionStats { successes: 0, failures: 0, ever_succeeded: false }
    }

    /// Records one round outcome: a success increments the success counter
    /// and sets the flag, a failure increments the failure counter.  A
    /// summary is due on every failure and on every REFRESH_INTERVAL-th
    /// success; the first success ever is flagged once.
    pub fn record(&mut self, success: bool) -> (r: RoundRecord)
        requires
            success ==> old(self).successes < u64::MAX,
            !success ==> old(self).failures < u64::MAX,
        ensures
            success ==> ({
                &&& final(self).successes == old(self).successes + 1
                &&& final(self).failures == old(self).failures
                &&& final(self).ever_succeeded
            }),
            !success ==> ({
                &&& final(self).successes == old(self).successes
                &&& final(self).failures == old(self).failures + 1
                &&& final(self).ever_succeeded == old(self).ever_succeeded
            }),
            r.emit_summary == if success {
                final(self).successes % REFRESH_INTERVAL == 0
            } else {
                true
            },
            r.first_success == (success && !old(self).ever_succeeded),
    {
        if success {
            let first = !self.ever_succeeded;
            self.successes = self.successes + 1;
            self.ever_succeeded = true;
            RoundRecord {
                emit_summary: self.successes % REFRESH_INTERVAL == 0,
                first_success: first,
            }
        } else {
            self.failures = self.failures + 1;
            RoundRecord { emit_summary: true, first_success: false }
        }
    }
}

} // verus!
