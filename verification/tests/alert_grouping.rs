use key_store::alerts::grouping::build_group_records_from_events;
use key_store::alerts::model::{
    AlertEntityRef, AlertEventRecord, AlertRequestRef, AlertSemanticWindowKind, AlertSourceRef,
    AlertUserRef, TokenRequestKind,
};
use key_store::alerts::semantic::{
    event_semantic_window, ALERT_TYPE_UPSTREAM_USAGE_LIMIT_432, ALERT_TYPE_USER_QUOTA_EXHAUSTED,
    ALERT_TYPE_USER_REQUEST_RATE_LIMITED,
};
use key_store::alerts::subject::{alert_subject_tuple, ALERT_SUBJECT_KEY, ALERT_SUBJECT_USER};

const DEFAULT_REQUEST_RATE_WINDOW_MINUTES: i64 = 5;

fn make_alert_event(
    id: &str,
    alert_type: &str,
    occurred_at: i64,
    request_kind_key: &str,
    request_kind_label: &str,
    error_message: Option<&str>,
) -> AlertEventRecord {
    let mut event = AlertEventRecord {
        id: id.to_string(),
        alert_type: alert_type.to_string(),
        title: format!("title-{id}"),
        summary: format!("summary-{id}"),
        occurred_at,
        subject_kind: "user".to_string(),
        subject_id: "usr_test".to_string(),
        subject_label: "Test User".to_string(),
        user: Some(AlertUserRef {
            user_id: "usr_test".to_string(),
            display_name: Some("Test User".to_string()),
            username: Some("tester".to_string()),
        }),
        token: Some(AlertEntityRef {
            id: "tok_test".to_string(),
            label: "tok_test".to_string(),
        }),
        key: None,
        request: Some(AlertRequestRef {
            id: occurred_at,
            method: "POST".to_string(),
            path: "/mcp".to_string(),
            query: None,
        }),
        request_kind: Some(TokenRequestKind::new(
            request_kind_key,
            request_kind_label,
            Some(request_kind_label.to_string()),
        )),
        failure_kind: None,
        result_status: Some("quota_exhausted".to_string()),
        error_message: error_message.map(str::to_string),
        reason_code: None,
        reason_summary: None,
        reason_detail: None,
        source: AlertSourceRef {
            kind: "auth_token_log".to_string(),
            id: format!("source-{id}"),
        },
        semantic_window: None,
    };
    event.semantic_window = event_semantic_window(&event, DEFAULT_REQUEST_RATE_WINDOW_MINUTES);
    event
}

const RATE_MESSAGE: &str = "user request rate limit exceeded on rolling 5m window (limit 25, used 25)";

#[test]
fn request_rate_events_merge_request_kinds_into_one_child_window() {
    let grouped = build_group_records_from_events(vec![
        make_alert_event("evt-1", ALERT_TYPE_USER_REQUEST_RATE_LIMITED, 1_700_000_000, "mcp_initialize", "MCP initialize", Some(RATE_MESSAGE)),
        make_alert_event("evt-2", ALERT_TYPE_USER_REQUEST_RATE_LIMITED, 1_700_000_060, "mcp_tools_list", "MCP tools/list", Some(RATE_MESSAGE)),
        make_alert_event("evt-3", ALERT_TYPE_USER_REQUEST_RATE_LIMITED, 1_700_000_120, "mcp_notifications_initialized", "MCP notifications/initialized", Some(RATE_MESSAGE)),
        make_alert_event("evt-4", ALERT_TYPE_USER_REQUEST_RATE_LIMITED, 1_700_000_180, "mcp_resources_list", "MCP resources/list", Some(RATE_MESSAGE)),
    ]);

    assert_eq!(grouped.top_level_items.len(), 1);
    let mother = &grouped.top_level_items[0];
    assert_eq!(mother.grouping_kind, "mother");
    assert_eq!(mother.child_count, 1);
    assert_eq!(mother.event_count, 4);
    assert!(mother.request_kind.is_none());

    let child = &mother.children[0];
    assert_eq!(child.grouping_kind, "child");
    assert_eq!(child.child_events.len(), 4);
    assert!(child.request_kind.is_none());
    assert_eq!(
        child.child_events[0].request_kind.as_ref().map(|value| value.key.as_str()),
        Some("mcp_resources_list")
    );
    assert_eq!(
        child.child_events[3].request_kind.as_ref().map(|value| value.key.as_str()),
        Some("mcp_initialize")
    );
}

#[test]
fn upstream_alerts_prefer_key_subject_over_token() {
    let user = AlertUserRef {
        user_id: "usr_test".to_string(),
        display_name: Some("Test User".to_string()),
        username: Some("tester".to_string()),
    };
    let token = AlertEntityRef { id: "tok_test".to_string(), label: "tok_test".to_string() };
    let key = AlertEntityRef { id: "key_test".to_string(), label: "key_test".to_string() };

    let (subject_kind, subject_id, subject_label) =
        alert_subject_tuple(ALERT_TYPE_UPSTREAM_USAGE_LIMIT_432, Some(&user), Some(&token), Some(&key));

    assert_eq!(subject_kind, ALERT_SUBJECT_KEY);
    assert_eq!(subject_id, "key_test");
    assert_eq!(subject_label, "key_test");
}

#[test]
fn local_limit_alerts_prefer_user_subject_over_token() {
    let user = AlertUserRef {
        user_id: "usr_test".to_string(),
        display_name: Some("Test User".to_string()),
        username: Some("tester".to_string()),
    };
    let token = AlertEntityRef { id: "tok_test".to_string(), label: "tok_test".to_string() };
    let key = AlertEntityRef { id: "key_test".to_string(), label: "key_test".to_string() };

    let (subject_kind, subject_id, subject_label) =
        alert_subject_tuple(ALERT_TYPE_USER_REQUEST_RATE_LIMITED, Some(&user), Some(&token), Some(&key));

    assert_eq!(subject_kind, ALERT_SUBJECT_USER);
    assert_eq!(subject_id, "usr_test");
    assert_eq!(subject_label, "Test User");
}

#[test]
fn request_rate_contiguous_children_roll_up_into_one_mother_range() {
    let grouped = build_group_records_from_events(vec![
        make_alert_event("evt-1", ALERT_TYPE_USER_REQUEST_RATE_LIMITED, 1_700_000_000, "mcp_initialize", "MCP initialize", Some(RATE_MESSAGE)),
        make_alert_event("evt-2", ALERT_TYPE_USER_REQUEST_RATE_LIMITED, 1_700_000_060, "mcp_tools_list", "MCP tools/list", Some(RATE_MESSAGE)),
        make_alert_event("evt-3", ALERT_TYPE_USER_REQUEST_RATE_LIMITED, 1_700_000_420, "mcp_notifications_initialized", "MCP notifications/initialized", Some(RATE_MESSAGE)),
        make_alert_event("evt-4", ALERT_TYPE_USER_REQUEST_RATE_LIMITED, 1_700_000_480, "mcp_resources_list", "MCP resources/list", Some(RATE_MESSAGE)),
        make_alert_event("evt-5", ALERT_TYPE_USER_REQUEST_RATE_LIMITED, 1_700_001_500, "mcp_resources_list", "MCP resources/list", Some(RATE_MESSAGE)),
    ]);

    assert_eq!(grouped.top_level_items.len(), 2);
    let merged = grouped
        .top_level_items
        .iter()
        .find(|item| item.child_count == 2)
        .expect("merged mother range");
    assert_eq!(merged.grouping_kind, "mother");
    assert_eq!(merged.event_count, 4);
    assert_eq!(merged.children.len(), 2);

    let split = grouped
        .top_level_items
        .iter()
        .find(|item| item.child_count == 1)
        .expect("split mother range");
    assert_eq!(split.event_count, 1);
}

#[test]
fn quota_window_parser_recovers_hour_day_and_month_semantics() {
    let hour = make_alert_event("hour", ALERT_TYPE_USER_QUOTA_EXHAUSTED, 1_700_100_000, "tavily_search", "Tavily Search", Some("token quota exceeded on hour window (limit 100, used 100)"));
    let day = make_alert_event("day", ALERT_TYPE_USER_QUOTA_EXHAUSTED, 1_700_100_000, "tavily_search", "Tavily Search", Some("token quota exceeded on day window (limit 500, used 500)"));
    let month = make_alert_event("month", ALERT_TYPE_USER_QUOTA_EXHAUSTED, 1_700_100_000, "tavily_search", "Tavily Search", Some("token quota exceeded on month window (limit 5000, used 5000)"));

    assert_eq!(hour.semantic_window.as_ref().map(|value| value.kind), Some(AlertSemanticWindowKind::RollingHour));
    assert_eq!(day.semantic_window.as_ref().map(|value| value.kind), Some(AlertSemanticWindowKind::Day));
    assert_eq!(month.semantic_window.as_ref().map(|value| value.kind), Some(AlertSemanticWindowKind::Month));
    assert!(hour.semantic_window.as_ref().and_then(|value| value.window_key.as_ref()).is_some_and(|value| value.starts_with("hour:")));
    assert!(day.semantic_window.as_ref().and_then(|value| value.window_key.as_ref()).is_some_and(|value| value.starts_with("day:")));
    assert!(month.semantic_window.as_ref().and_then(|value| value.window_key.as_ref()).is_some_and(|value| value.starts_with("month:")));
}

#[test]
fn quota_hour_windows_form_distinct_children_under_one_mother() {
    let grouped = build_group_records_from_events(vec![
        make_alert_event("hour-1", ALERT_TYPE_USER_QUOTA_EXHAUSTED, 1_700_200_000, "tavily_search", "Tavily Search", Some("token quota exceeded on hour window (limit 100, used 100)")),
        make_alert_event("hour-2", ALERT_TYPE_USER_QUOTA_EXHAUSTED, 1_700_200_010, "tavily_extract", "Tavily Extract", Some("token quota exceeded on hour window (limit 100, used 100)")),
    ]);

    assert_eq!(grouped.top_level_items.len(), 1);
    let mother = &grouped.top_level_items[0];
    assert_eq!(mother.grouping_kind, "mother");
    assert_eq!(mother.semantic_window_kind.as_deref(), Some("rolling_hour"));
    assert_eq!(mother.child_count, 2);
    assert_eq!(mother.event_count, 2);
}

#[test]
fn unrecoverable_quota_events_fall_back_to_compat_groups() {
    let grouped = build_group_records_from_events(vec![make_alert_event(
        "quota-compat",
        ALERT_TYPE_USER_QUOTA_EXHAUSTED,
        1_700_300_000,
        "tavily_search",
        "Tavily Search",
        Some("quota exhausted"),
    )]);

    assert_eq!(grouped.top_level_items.len(), 1);
    let group = &grouped.top_level_items[0];
    assert_eq!(group.grouping_kind, "compat");
    assert_eq!(group.request_kind.as_ref().map(|value| value.key.as_str()), Some("tavily_search"));
}
