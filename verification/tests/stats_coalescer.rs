use key_store::coalescer::{RequestStatsCoalescer, RequestStatsCoalescerState};

fn empty_state() -> RequestStatsCoalescerState {
    RequestStatsCoalescerState {
        pending_dashboard_rollups: Vec::new(),
        pending_api_key_usage: Vec::new(),
        pending_auth_token_activity: Vec::new(),
        pending_account_request_rollups: Vec::new(),
        pending_request_log_catalog: Vec::new(),
        flush_deadline: None,
        flushing: false,
        shutdown: false,
    }
}

#[test]
fn token_activity_is_coalesced_per_token() {
    let mut state = empty_state();
    RequestStatsCoalescer::enqueue_auth_token_activity_locked(&mut state, "tok_a", Some("usr_1"), 1_000);
    RequestStatsCoalescer::enqueue_auth_token_activity_locked(&mut state, "tok_a", Some("usr_1"), 1_100);
    RequestStatsCoalescer::enqueue_auth_token_activity_locked(&mut state, "tok_b", None, 900);
    assert_eq!(state.pending_auth_token_activity.len(), 2);
    assert_eq!(state.pending_auth_token_activity[0].0, "tok_a");
    assert_eq!(state.pending_auth_token_activity[0].1.total_requests_delta, 2);
    assert_eq!(state.pending_auth_token_activity[0].1.last_used_at, Some(1_100));
    assert_eq!(state.pending_auth_token_activity[1].1.total_requests_delta, 1);
    assert_eq!(state.pending_account_request_rollups.len(), 1);
    assert_eq!(state.pending_account_request_rollups[0], (("usr_1".to_string(), 900), 2));
    assert_eq!(RequestStatsCoalescer::pending_key_count(&state), 3);
    RequestStatsCoalescer::enqueue_auth_token_activity_locked(&mut state, "tok_b", Some("usr_1"), 1_200);
    assert_eq!(state.pending_account_request_rollups[1], (("usr_1".to_string(), 1_200), 1));
}

#[test]
fn negative_times_fall_in_the_bucket_below() {
    let mut state = empty_state();
    RequestStatsCoalescer::enqueue_auth_token_activity_locked(&mut state, "t", Some("u"), -1);
    assert_eq!(state.pending_account_request_rollups[0].0 .1, -300);
}

#[test]
fn flush_deadline_is_set_once_when_pending() {
    let mut state = empty_state();
    RequestStatsCoalescer::mark_flush_deadline_if_pending(&mut state, 5_000);
    assert_eq!(state.flush_deadline, None);
    RequestStatsCoalescer::enqueue_auth_token_activity_locked(&mut state, "t", None, 1);
    RequestStatsCoalescer::mark_flush_deadline_if_pending(&mut state, 5_000);
    assert_eq!(state.flush_deadline, Some(6_000));
    RequestStatsCoalescer::mark_flush_deadline_if_pending(&mut state, 9_000);
    assert_eq!(state.flush_deadline, Some(6_000));
}

fn counts(total: i64, success: i64, credits: i64) -> key_store::metrics::DashboardRequestRollupCounts {
    let mut c = key_store::metrics::DashboardRequestRollupCounts::default();
    c.total_requests = total;
    c.success_count = success;
    c.local_estimated_credits = credits;
    c
}

fn catalog_key(bucket_start: i64) -> key_store::coalescer::RequestLogCatalogRollupKey {
    key_store::coalescer::RequestLogCatalogRollupKey {
        bucket_start,
        request_kind_key: "mcp_search".to_string(),
        request_kind_label: "MCP search".to_string(),
        result_bucket: "success".to_string(),
        key_effect_code: "none".to_string(),
        binding_effect_code: "none".to_string(),
        selection_effect_code: "none".to_string(),
        auth_token_id: "tok".to_string(),
        api_key_id: "key".to_string(),
        operational_class: "ok".to_string(),
    }
}

#[test]
fn logged_requests_roll_up_by_minute_day_key_token_and_catalogue() {
    let mut state = empty_state();
    let c = counts(1, 1, 3);
    assert!(RequestStatsCoalescer::request_log_rollups_fit(&state, Some("key"), "tok", Some("usr"), 125, 0, &c, &Some(catalog_key(0))));
    RequestStatsCoalescer::enqueue_request_log_rollups(&mut state, Some("key"), "tok", Some("usr"), 125, 0, c, Some(catalog_key(0)), 1_000);
    RequestStatsCoalescer::enqueue_request_log_rollups(&mut state, None, "tok", None, 170, 0, counts(1, 0, 2), Some(catalog_key(0)), 2_000);
    assert_eq!(state.pending_dashboard_rollups.len(), 2);
    assert_eq!(state.pending_dashboard_rollups[0].0, (120, 60));
    assert_eq!(state.pending_dashboard_rollups[0].1.total_requests, 2);
    assert_eq!(state.pending_dashboard_rollups[0].1.success_count, 1);
    assert_eq!(state.pending_dashboard_rollups[0].1.local_estimated_credits, 5);
    assert_eq!(state.pending_dashboard_rollups[1].0, (0, 86_400));
    assert_eq!(state.pending_dashboard_rollups[1].1.total_requests, 2);
    assert_eq!(state.pending_api_key_usage.len(), 1);
    assert_eq!(state.pending_api_key_usage[0].0, ("key".to_string(), 0));
    assert_eq!(state.pending_api_key_usage[0].1.total_requests, 1);
    assert_eq!(state.pending_auth_token_activity[0].1.total_requests_delta, 2);
    assert_eq!(state.pending_auth_token_activity[0].1.last_used_at, Some(170));
    assert_eq!(state.pending_account_request_rollups, vec![(("usr".to_string(), 0), 1)]);
    assert_eq!(state.pending_request_log_catalog.len(), 1);
    assert_eq!(state.pending_request_log_catalog[0].1, 2);
    assert_eq!(state.flush_deadline, Some(2_000));
}

#[test]
fn negative_request_times_roll_up_into_the_minute_below() {
    let mut state = empty_state();
    RequestStatsCoalescer::enqueue_request_log_rollups(&mut state, None, "tok", None, -1, -86_400, counts(1, 1, 0), None, 0);
    assert_eq!(state.pending_dashboard_rollups[0].0, (-60, 60));
    assert_eq!(state.pending_dashboard_rollups[1].0, (-86_400, 86_400));
}

#[test]
fn rollups_that_would_overflow_do_not_fit() {
    let mut state = empty_state();
    let big = counts(i64::MAX, 0, 0);
    RequestStatsCoalescer::enqueue_request_log_rollups(&mut state, None, "tok", None, 0, 0, big, None, 0);
    assert!(!RequestStatsCoalescer::request_log_rollups_fit(&state, None, "tok", None, 0, 0, &counts(1, 0, 0), &None));
    assert!(RequestStatsCoalescer::request_log_rollups_fit(&state, None, "tok", None, 0, 0, &counts(0, 0, 0), &None));
    assert!(!RequestStatsCoalescer::request_log_rollups_fit(&empty_state(), None, "tok", None, i64::MIN, 0, &counts(0, 0, 0), &None));
}

#[test]
fn credits_roll_up_by_minute_and_day_only_when_positive() {
    let mut state = empty_state();
    RequestStatsCoalescer::enqueue_dashboard_credit_rollups(&mut state, 130, 0, 0, 1_000);
    assert!(state.pending_dashboard_rollups.is_empty());
    assert_eq!(state.flush_deadline, None);
    assert!(RequestStatsCoalescer::dashboard_credit_rollups_fit(&state, 130, 0, 4));
    RequestStatsCoalescer::enqueue_dashboard_credit_rollups(&mut state, 130, 0, 4, 1_000);
    RequestStatsCoalescer::enqueue_dashboard_credit_rollups(&mut state, 170, 0, 3, 5_000);
    assert_eq!(state.pending_dashboard_rollups.len(), 2);
    assert_eq!(state.pending_dashboard_rollups[0].0, (120, 60));
    assert_eq!(state.pending_dashboard_rollups[0].1.local_estimated_credits, 7);
    assert_eq!(state.pending_dashboard_rollups[0].1.total_requests, 0);
    assert_eq!(state.pending_dashboard_rollups[1].0, (0, 86_400));
    assert_eq!(state.pending_dashboard_rollups[1].1.local_estimated_credits, 7);
    assert_eq!(state.flush_deadline, Some(2_000));
    assert!(!RequestStatsCoalescer::dashboard_credit_rollups_fit(&state, 130, 0, i64::MAX));
}
