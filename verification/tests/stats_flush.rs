use key_store::coalescer::{RequestStatsCoalescer, RequestStatsCoalescerState};
use key_store::flush::FlushStart;

fn empty_state() -> RequestStatsCoalescerState {
    RequestStatsCoalescerState {
        pending_dashboard_rollups: Vec::new(),
        pending_api_key_usage: Vec::new(),
        pending_auth_token_activity: Vec::new(),
        pending_account_request_rollups: Vec::new(),
        pending_request_log_catalog: Vec::new(),
        flush_deadline: None,
        flushing: false,
        shutdown: false,
    }
}

#[test]
fn nothing_to_flush() {
    let mut state = empty_state();
    assert!(matches!(RequestStatsCoalescer::begin_flush(&mut state), FlushStart::NothingPending));
    state.flushing = true;
    assert!(matches!(RequestStatsCoalescer::begin_flush(&mut state), FlushStart::AlreadyFlushing));
}

#[test]
fn a_failed_flush_puts_counts_back() {
    let mut state = empty_state();
    RequestStatsCoalescer::enqueue_auth_token_activity_locked(&mut state, "tok", Some("usr"), 600);
    let drained = match RequestStatsCoalescer::begin_flush(&mut state) {
        FlushStart::Drained(d) => d,
        _ => panic!("expected a drain"),
    };
    assert!(state.flushing);
    assert!(state.pending_auth_token_activity.is_empty());
    assert_eq!(drained.auth_token_activity.len(), 1);
    RequestStatsCoalescer::enqueue_auth_token_activity_locked(&mut state, "tok", None, 700);
    RequestStatsCoalescer::restore_failed_flush(&mut state, drained, 10_000);
    assert!(!state.flushing);
    assert_eq!(state.pending_auth_token_activity.len(), 1);
    assert_eq!(state.pending_auth_token_activity[0].1.total_requests_delta, 2);
    assert_eq!(state.pending_auth_token_activity[0].1.last_used_at, Some(700));
    assert_eq!(state.pending_account_request_rollups, vec![(("usr".to_string(), 600), 1)]);
    assert_eq!(state.flush_deadline, Some(11_000));
}

#[test]
fn a_completed_flush_clears_the_deadline() {
    let mut state = empty_state();
    RequestStatsCoalescer::enqueue_auth_token_activity_locked(&mut state, "tok", None, 1);
    let _ = RequestStatsCoalescer::begin_flush(&mut state);
    state.flush_deadline = Some(5);
    RequestStatsCoalescer::complete_flush(&mut state, 100);
    assert!(!state.flushing);
    assert_eq!(state.flush_deadline, None);
    RequestStatsCoalescer::enqueue_auth_token_activity_locked(&mut state, "tok", None, 2);
    state.flushing = true;
    RequestStatsCoalescer::complete_flush(&mut state, 100);
    assert_eq!(state.flush_deadline, Some(1_100));
}
