use cursor_mate::termination::SignalMode;
use cursor_mate::termination::SignalRequest;
use cursor_mate::termination::TerminationSession;

#[test]
fn empty_match_set_is_a_benign_no_op() {
    let session = TerminationSession::new(Vec::new());
    assert_eq!(session.next_request(), None);
    let summary = session.into_summary();
    assert_eq!(summary.attempted, 0);
    assert_eq!(summary.succeeded, 0);
    assert!(summary.outcomes.is_empty());
    assert!(summary.is_success());
}

#[test]
fn graceful_success_settles_without_escalation() {
    let mut session = TerminationSession::new(vec![42]);
    assert_eq!(
        session.next_request(),
        Some(SignalRequest { identifier: 42, mode: SignalMode::Graceful })
    );
    session.report(true);
    assert_eq!(session.next_request(), None);
    let summary = session.into_summary();
    assert_eq!(summary.attempted, 1);
    assert_eq!(summary.succeeded, 1);
    assert!(summary.is_success());
    let outcome = &summary.outcomes[0];
    assert_eq!(outcome.identifier, 42);
    assert!(outcome.succeeded);
    assert_eq!(outcome.method, SignalMode::Graceful);
    assert!(outcome.error.is_none());
}

#[test]
fn graceful_failure_escalates_to_exactly_one_forced_attempt() {
    let mut session = TerminationSession::new(vec![7]);
    assert_eq!(
        session.next_request(),
        Some(SignalRequest { identifier: 7, mode: SignalMode::Graceful })
    );
    session.report(false);
    assert_eq!(
        session.next_request(),
        Some(SignalRequest { identifier: 7, mode: SignalMode::Forced })
    );
    session.report(true);
    assert_eq!(session.next_request(), None);
    let summary = session.into_summary();
    assert_eq!(summary.attempted, 1);
    assert_eq!(summary.succeeded, 1);
    let outcome = &summary.outcomes[0];
    assert!(outcome.succeeded);
    assert_eq!(outcome.method, SignalMode::Forced);
    assert!(outcome.error.is_none());
}

#[test]
fn both_signals_failing_records_a_failure_with_a_message() {
    let mut session = TerminationSession::new(vec![9]);
    session.report(false);
    session.report(false);
    assert_eq!(session.next_request(), None);
    let summary = session.into_summary();
    assert_eq!(summary.attempted, 1);
    assert_eq!(summary.succeeded, 0);
    assert!(!summary.is_success());
    let outcome = &summary.outcomes[0];
    assert_eq!(outcome.identifier, 9);
    assert!(!outcome.succeeded);
    assert_eq!(outcome.method, SignalMode::Forced);
    assert!(outcome.error.is_some());
}

#[test]
fn one_success_among_failures_is_overall_success() {
    let mut session = TerminationSession::new(vec![1, 2]);
    session.report(false);
    session.report(false);
    session.report(true);
    let summary = session.into_summary();
    assert_eq!(summary.attempted, 2);
    assert_eq!(summary.succeeded, 1);
    assert!(summary.is_success());
    assert!(!summary.outcomes[0].succeeded);
    assert!(summary.outcomes[1].succeeded);
}

#[test]
fn two_processes_one_graceful_one_escalated() {
    let mut session = TerminationSession::new(vec![100, 200]);
    assert_eq!(
        session.next_request(),
        Some(SignalRequest { identifier: 100, mode: SignalMode::Graceful })
    );
    session.report(true);
    assert_eq!(
        session.next_request(),
        Some(SignalRequest { identifier: 200, mode: SignalMode::Graceful })
    );
    session.report(false);
    assert_eq!(
        session.next_request(),
        Some(SignalRequest { identifier: 200, mode: SignalMode::Forced })
    );
    session.report(true);
    assert_eq!(session.next_request(), None);
    let summary = session.into_summary();
    assert_eq!(summary.attempted, 2);
    assert_eq!(summary.succeeded, 2);
    assert!(summary.is_success());
    assert_eq!(summary.outcomes.len(), 2);
    assert_eq!(summary.outcomes[0].identifier, 100);
    assert!(summary.outcomes[0].succeeded);
    assert_eq!(summary.outcomes[0].method, SignalMode::Graceful);
    assert_eq!(summary.outcomes[1].identifier, 200);
    assert!(summary.outcomes[1].succeeded);
    assert_eq!(summary.outcomes[1].method, SignalMode::Forced);
}
