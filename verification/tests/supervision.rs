use tcp_udp_validator::reconnect::{ConnState, StreamSession};
use tcp_udp_validator::stats::SessionStats;

#[test]
fn counters_start_at_zero() {
    let s = SessionStats::new();
    assert_eq!(s.successes, 0);
    assert_eq!(s.failures, 0);
    assert!(!s.ever_succeeded);
}

#[test]
fn record_counts_successes_and_failures() {
    let mut s = SessionStats::new();
    let first = s.record(true);
    assert_eq!(s.successes, 1);
    assert_eq!(s.failures, 0);
    assert!(s.ever_succeeded);
    assert!(first.first_success);
    assert!(!first.emit_summary);

    let second = s.record(true);
    assert_eq!(s.successes, 2);
    assert!(!second.first_success);

    let failed = s.record(false);
    assert_eq!(s.successes, 2);
    assert_eq!(s.failures, 1);
    assert!(failed.emit_summary);
    assert!(!failed.first_success);
}

#[test]
fn summary_is_due_on_every_failure_and_every_10000th_success() {
    let mut s = SessionStats::new();
    for round in 1..=10000u64 {
        let r = s.record(true);
        assert_eq!(r.emit_summary, round == 10000);
    }
    assert_eq!(s.successes, 10000);
    let r = s.record(false);
    assert!(r.emit_summary);
}

#[test]
fn first_success_is_flagged_once_even_after_failures() {
    let mut s = SessionStats::new();
    assert!(!s.record(false).first_success);
    assert!(s.record(true).first_success);
    assert!(!s.record(false).first_success);
    assert!(!s.record(true).first_success);
}

// Reconnect scenario: a transport error mid-loop moves the session to
// reconnecting; failed attempts keep it there; a new peer connection brings
// it back with the counters intact, not reset.
#[test]
fn reconnection_keeps_counters_intact() {
    let mut session = StreamSession::new();
    assert!(matches!(session.conn, ConnState::Connected));

    session.record_round(true);
    session.record_round(true);
    session.record_round(false);
    let before = session.stats;

    session.on_transport_error();
    assert!(matches!(session.conn, ConnState::Reconnecting { attempts: 0 }));

    session.on_attempt_failed();
    session.on_attempt_failed();
    assert!(matches!(session.conn, ConnState::Reconnecting { attempts: 2 }));
    assert_eq!(session.stats, before);

    session.on_reconnected();
    assert!(matches!(session.conn, ConnState::Connected));
    assert_eq!(session.stats, before);
    assert_eq!(session.stats.successes, 2);
    assert_eq!(session.stats.failures, 1);

    // The loop resumes: the next round counts on top of the old totals.
    session.record_round(true);
    assert_eq!(session.stats.successes, 3);
}

#[test]
fn record_round_leaves_connection_state_alone() {
    let mut session = StreamSession::new();
    session.on_transport_error();
    session.record_round(false);
    assert!(matches!(session.conn, ConnState::Reconnecting { attempts: 0 }));
}
