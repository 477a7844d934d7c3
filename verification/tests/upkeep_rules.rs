use key_store::gc_runs::{HaOutboxGcChannelProgress, HaOutboxGcNext, RequestLogsGcProgress};
use key_store::gc::{
    merge_restart_at, parse_request_log_body_gc_cursor, request_log_body_cleaned_reason,
    request_log_body_cursor_restart_at, request_log_body_gc_cursor_value, request_log_body_is_expired,
    request_log_body_restart_at,
    request_log_body_gc_finish_scan, request_log_body_gc_scan_limit,
    request_log_body_gc_start_cursor, request_value_bucket_for_stored_request_log,
    retention_shift_days, BodyGcCandidate, BodyGcCursorWrite, BodyGcScan, RequestLogBodyGcCursor, RequestValueBucket,
};
use key_store::reconciliation::{
    classify_reconciliation_retry_reason, upstream_reconciliation_shadow_ready, SystemSettings,
    UpstreamProjectIdMode,
};

#[test]
fn retry_reasons_are_classified() {
    assert_eq!(classify_reconciliation_retry_reason(None), "other");
    assert_eq!(classify_reconciliation_retry_reason(Some("local_usage_rate_limit")), "local_usage_rate_limit");
    assert_eq!(classify_reconciliation_retry_reason(Some("upstream429")), "upstream429");
    assert_eq!(classify_reconciliation_retry_reason(Some("usage http error 429: slow down")), "upstream429");
    assert_eq!(classify_reconciliation_retry_reason(Some("HTTP 429 Too Many Requests")), "upstream429");
    assert_eq!(classify_reconciliation_retry_reason(Some("timeout")), "other");
}

#[test]
fn shadow_reconciliation_needs_all_three_settings() {
    let mut s = SystemSettings {
        upstream_project_id_mode: UpstreamProjectIdMode::AccessToken,
        api_rebalance_enabled: true,
        rebalance_mcp_enabled: true,
    };
    assert!(upstream_reconciliation_shadow_ready(&s));
    s.rebalance_mcp_enabled = false;
    assert!(!upstream_reconciliation_shadow_ready(&s));
    s.rebalance_mcp_enabled = true;
    s.upstream_project_id_mode = UpstreamProjectIdMode::Other;
    assert!(!upstream_reconciliation_shadow_ready(&s));
}

#[test]
fn stored_batches_are_valued_by_quota() {
    let other = RequestValueBucket::Unknown;
    assert_eq!(request_value_bucket_for_stored_request_log(" mcp:batch ", None, true, other), RequestValueBucket::Valuable);
    assert_eq!(request_value_bucket_for_stored_request_log("mcp:batch", None, false, other), RequestValueBucket::Other);
    assert_eq!(request_value_bucket_for_stored_request_log("mcp:batch", Some(b"{}"), false, other), RequestValueBucket::Other);
    assert_eq!(request_value_bucket_for_stored_request_log("mcp:batch", Some(b"{}"), true, other), RequestValueBucket::Unknown);
    assert_eq!(request_value_bucket_for_stored_request_log("api:search", None, true, RequestValueBucket::Valuable), RequestValueBucket::Valuable);
}

#[test]
fn retention_days_and_restart_times() {
    assert_eq!(retention_shift_days(0), 1);
    assert_eq!(retention_shift_days(30), 30);
    assert_eq!(retention_shift_days(i64::MAX), i32::MAX);
    assert_eq!(request_log_body_cursor_restart_at(0, 100, 500), 100);
    assert_eq!(request_log_body_cursor_restart_at(7, 100, 500), 500);
    assert_eq!(request_log_body_cursor_restart_at(7, 600, 500), 600);
}

#[test]
fn cursors_render_and_parse_back() {
    let with = RequestLogBodyGcCursor { created_at: 1_700_000_000, id: 42, restart_at: Some(-3) };
    let without = RequestLogBodyGcCursor { created_at: 5, id: 6, restart_at: None };
    assert_eq!(request_log_body_gc_cursor_value(with), "1700000000:42:-3");
    assert_eq!(request_log_body_gc_cursor_value(without), "5:6");
    assert_eq!(parse_request_log_body_gc_cursor("1700000000:42:-3"), Some(with));
    assert_eq!(parse_request_log_body_gc_cursor("5:6"), Some(without));
    assert_eq!(parse_request_log_body_gc_cursor("5:6:x"), Some(without));
    assert_eq!(parse_request_log_body_gc_cursor("5"), None);
    assert_eq!(parse_request_log_body_gc_cursor("x:6"), None);
}

#[test]
fn scans_restart_and_finish() {
    let due = RequestLogBodyGcCursor { created_at: 1, id: 2, restart_at: Some(100) };
    assert_eq!(request_log_body_gc_start_cursor(Some(due), 100), None);
    assert_eq!(request_log_body_gc_start_cursor(Some(due), 99), Some(due));
    assert_eq!(request_log_body_gc_scan_limit(10), 640);
    assert_eq!(request_log_body_gc_scan_limit(i64::MAX), i64::MAX);
    assert_eq!(merge_restart_at(Some(50), 70), Some(50));
    assert_eq!(merge_restart_at(None, 70), Some(70));
    assert_eq!(request_log_body_cleaned_reason(0), "policy_zero");
    assert_eq!(request_log_body_cleaned_reason(3), "retention_expired");
    let at = RequestLogBodyGcCursor { created_at: 7, id: 8, restart_at: Some(9) };
    assert_eq!(request_log_body_gc_finish_scan(true, false, Some((7, 8)), Some(9)), (true, BodyGcCursorWrite::Store(Some(at))));
    assert_eq!(request_log_body_gc_finish_scan(false, true, Some((7, 8)), Some(9)), (true, BodyGcCursorWrite::Store(Some(at))));
    assert_eq!(request_log_body_gc_finish_scan(false, false, Some((7, 8)), None), (false, BodyGcCursorWrite::Store(None)));
    assert_eq!(request_log_body_gc_finish_scan(false, false, None, Some(9)), (false, BodyGcCursorWrite::Keep));
}

#[test]
fn outbox_collection_moves_from_invalid_events_to_expired_ones() {
    let mut p = HaOutboxGcChannelProgress::new();
    assert_eq!(p.after_invalid_batch(3, 10), HaOutboxGcNext::NextBatch);
    assert_eq!(p.after_invalid_batch(10, 10), HaOutboxGcNext::PauseThenNextBatch);
    assert_eq!(p.after_invalid_batch(0, 10), HaOutboxGcNext::DeleteExpired);
    assert_eq!(p.after_expired_batch(10, 10), HaOutboxGcNext::PauseThenNextBatch);
    assert_eq!(p.after_invalid_batch(0, 10), HaOutboxGcNext::DeleteExpired);
    assert_eq!(p.after_expired_batch(4, 10), HaOutboxGcNext::ChannelDone);
    assert_eq!(p.invalid_legacy_deleted_rows, 13);
    assert_eq!(p.retention_deleted_rows, 14);
    assert_eq!(p.deleted_rows, 27);
    assert_eq!(p.batches, 4);
}

#[test]
fn request_log_collection_stops_after_an_idle_batch() {
    let mut p = RequestLogsGcProgress::new();
    assert!(p.after_batch(5, false, 2, 0));
    assert!(p.after_batch(0, true, 0, 0));
    assert!(!p.after_batch(0, false, 0, 0));
    assert_eq!((p.cleaned_request_log_bodies, p.deleted_request_logs, p.deleted_rollups, p.batches), (5, 2, 0, 3));
    assert!(!p.body_batch_has_more);
}

#[test]
fn body_retention_restart_and_expiry() {
    assert_eq!(request_log_body_restart_at(1_000, 0, 5_000), 5_000);
    let created = 1_700_000_000;
    let r = request_log_body_restart_at(created, 7, created);
    assert!(r >= created);
    assert!(created + 4 * 86_400 < r && r < created + 9 * 86_400);
    assert_eq!(request_log_body_restart_at(created, 7, created + 100 * 86_400), created + 100 * 86_400);
    assert_eq!(request_log_body_restart_at(i64::MAX, 7, 10), 10);
    assert!(request_log_body_is_expired(10, 0, 0));
    assert!(request_log_body_is_expired(10, 3, 11));
    assert!(!request_log_body_is_expired(11, 3, 11));
}

#[test]
fn body_gc_scan_steps() {
    let mut scan = BodyGcScan::start(Some(RequestLogBodyGcCursor { created_at: 5, id: 1, restart_at: Some(900) }));
    assert_eq!(scan.after, Some((5, 1)));
    assert!(scan.wants_more(2, 10, false));
    assert!(scan.take(6, 2, BodyGcCandidate::Kept { restart_at: 800 }, 2, 10, false));
    assert_eq!(scan.restart_at, Some(800));
    assert!(scan.take(7, 3, BodyGcCandidate::Cleaned { rows: 1 }, 2, 10, false));
    assert!(!scan.take(8, 4, BodyGcCandidate::Cleaned { rows: 1 }, 2, 10, false));
    assert!(scan.has_more);
    assert_eq!((scan.cleaned, scan.scanned, scan.after), (2, 3, Some((8, 4))));
    assert!(!scan.wants_more(2, 10, false));
    let mut limited = BodyGcScan::start(None);
    assert!(!limited.take(1, 1, BodyGcCandidate::Kept { restart_at: 3 }, 5, 1, false));
    assert!(limited.has_more);
}
