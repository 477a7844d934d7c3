use key_store::alerts::model::{AlertSemanticWindowKind, TokenRequestKind};
use key_store::alerts::projection::{AlertEventProjectionRow, AlertGroupProjectionRow};
use key_store::store::KeyStore;

fn row() -> AlertEventProjectionRow {
    AlertEventProjectionRow {
        source_kind: "auth_token_log".to_string(),
        source_id: "42".to_string(),
        row_sort_id: "atl:00000000000000000042".to_string(),
        alert_type: "user_request_rate_limited".to_string(),
        occurred_at: 1_700_000_000,
        token_id: Some("tok_1".to_string()),
        key_id: Some("key_1".to_string()),
        request_log_id: Some(7),
        method: None,
        path: None,
        query: None,
        request_kind_key: Some("mcp_tools_list".to_string()),
        request_kind_label: None,
        request_kind_detail: None,
        result_status: Some("quota_exhausted".to_string()),
        failure_kind: None,
        error_message: Some("user request rate limit exceeded on rolling 10m window (limit 25, used 25)".to_string()),
        counts_business_quota: Some(false),
        user_id: Some("usr_1".to_string()),
        user_display_name: None,
        user_username: Some("alice".to_string()),
        reason_code: None,
        reason_summary: None,
        reason_detail: None,
    }
}

#[test]
fn projection_builds_a_rate_limited_event() {
    let event = KeyStore::build_alert_event_from_projection(row(), None, 5).expect("an event");
    assert_eq!(event.id, "auth_token_log:42");
    assert_eq!(event.alert_type, "user_request_rate_limited");
    assert_eq!(event.subject_kind, "user");
    assert_eq!(event.subject_id, "usr_1");
    assert_eq!(event.subject_label, "alice");
    assert_eq!(event.title, "alice hit the local request-rate limit");
    let request = event.request.as_ref().expect("a request");
    assert_eq!(request.method, "POST");
    assert_eq!(request.path, "/unknown");
    let kind = event.request_kind.as_ref().expect("a request kind");
    assert_eq!(kind.key, "mcp_tools_list");
    assert_eq!(kind.label, "mcp_tools_list");
    let window = event.semantic_window.as_ref().expect("a window");
    assert_eq!(window.kind, AlertSemanticWindowKind::RequestRate);
    assert_eq!(window.window_minutes, Some(10));
    assert_eq!(window.window_start, Some(1_700_000_000 - 600));
    assert_eq!(event.source.kind, "auth_token_log");
    assert_eq!(event.source.id, "42");
}

#[test]
fn projection_resolves_a_blank_alert_type() {
    let mut r = row();
    r.alert_type = "  ".to_string();
    r.counts_business_quota = Some(true);
    let event = KeyStore::build_alert_event_from_projection(r, None, 5).expect("an event");
    assert_eq!(event.alert_type, "user_quota_exhausted");

    let mut r = row();
    r.alert_type = String::new();
    r.failure_kind = Some("upstream_rate_limited_429".to_string());
    let event = KeyStore::build_alert_event_from_projection(r, None, 5).expect("an event");
    assert_eq!(event.alert_type, "upstream_rate_limited_429");
    assert_eq!(event.subject_kind, "key");

    let mut r = row();
    r.alert_type = String::new();
    r.result_status = Some("success".to_string());
    assert!(KeyStore::build_alert_event_from_projection(r, None, 5).is_none());
}

#[test]
fn projection_uses_the_finalized_kind_when_method_and_path_are_known() {
    let mut r = row();
    r.method = Some("POST".to_string());
    r.path = Some("/mcp".to_string());
    let finalized = TokenRequestKind::new("mcp:tools/list", "MCP tools/list", None);
    let event = KeyStore::build_alert_event_from_projection(r, Some(finalized), 5).expect("an event");
    let kind = event.request_kind.as_ref().expect("a request kind");
    assert_eq!(kind.key, "mcp:tools/list");
    assert_eq!(kind.label, "MCP tools/list");
    assert_eq!(event.request.as_ref().unwrap().path, "/mcp");
}

fn group_row(kind: &str, sort_id: &str) -> AlertGroupProjectionRow {
    AlertGroupProjectionRow {
        grouping_kind: kind.to_string(),
        row_sort_id: sort_id.to_string(),
        alert_type: "user_request_rate_limited".to_string(),
        subject_kind: "user".to_string(),
        subject_id: "usr_1".to_string(),
        count: 3,
        first_seen: 10,
        last_seen: 20,
        semantic_window_kind: Some("request_rate".to_string()),
        semantic_window_minutes: Some(5),
        semantic_window_start: Some(0),
        semantic_window_end: Some(20),
        child_count: 2,
    }
}

#[test]
fn group_records_take_their_latest_event() {
    let event = KeyStore::build_alert_event_from_projection(row(), None, 5).expect("an event");
    let latest = vec![("atl:1".to_string(), event)];
    let groups = vec![group_row("mother", "atl:1"), group_row("compat", "atl:1"), group_row("compat", "missing")];
    let records = KeyStore::build_alert_group_records(groups, &latest);
    assert_eq!(records.len(), 2);
    assert_eq!(records[0].id, "user_request_rate_limited:user:usr_1:request_rate:mother:0");
    assert!(records[0].request_kind.is_none());
    assert_eq!(records[0].count, 3);
    assert_eq!(records[0].event_count, 3);
    assert_eq!(records[0].child_count, 2);
    assert_eq!(records[0].grouping_kind, "mother");
    assert_eq!(records[1].id, "user_request_rate_limited:user:usr_1:mcp_tools_list");
    assert_eq!(records[1].request_kind.as_ref().unwrap().key, "mcp_tools_list");
    assert_eq!(records[1].subject_label, "alice");
}
