use key_store::alerts::grouping::build_group_records_from_events;
use key_store::alerts::model::{
    AlertEntityRef, AlertEventRecord, AlertGroupRecord, AlertRequestRef, AlertSourceRef, AlertUserRef,
    TokenRequestKind,
};
use key_store::alerts::queries::{AlertEventFilters, AlertSqlFragments};
use key_store::alerts::selection::populate_selected_mother_groups;
use key_store::alerts::semantic::{event_semantic_window, ALERT_TYPE_USER_REQUEST_RATE_LIMITED};
use key_store::sql::SqlBind;
use key_store::store::KeyStore;

const RATE_MESSAGE: &str = "user request rate limit exceeded on rolling 5m window (limit 25, used 25)";

fn rate_event(id: &str, occurred_at: i64) -> AlertEventRecord {
    let mut event = AlertEventRecord {
        id: id.to_string(),
        alert_type: ALERT_TYPE_USER_REQUEST_RATE_LIMITED.to_string(),
        title: format!("title-{id}"),
        summary: format!("summary-{id}"),
        occurred_at,
        subject_kind: "user".to_string(),
        subject_id: "usr_test".to_string(),
        subject_label: "Test User".to_string(),
        user: Some(AlertUserRef {
            user_id: "usr_test".to_string(),
            display_name: Some("Test User".to_string()),
            username: Some("tester".to_string()),
        }),
        token: Some(AlertEntityRef { id: "tok_test".to_string(), label: "tok_test".to_string() }),
        key: None,
        request: Some(AlertRequestRef {
            id: occurred_at,
            method: "POST".to_string(),
            path: "/mcp".to_string(),
            query: None,
        }),
        request_kind: Some(TokenRequestKind::new("mcp_tools_list", "MCP tools/list", None)),
        failure_kind: None,
        result_status: Some("rate_limited".to_string()),
        error_message: Some(RATE_MESSAGE.to_string()),
        reason_code: None,
        reason_summary: None,
        reason_detail: None,
        source: AlertSourceRef { kind: "auth_token_log".to_string(), id: format!("source-{id}") },
        semantic_window: None,
    };
    event.semantic_window = event_semantic_window(&event, 5);
    event
}

/// One mother group over two events a minute apart.
fn mother() -> AlertGroupRecord {
    let mut items = build_group_records_from_events(vec![
        rate_event("evt-1", 1_700_000_000),
        rate_event("evt-2", 1_700_000_060),
    ])
    .top_level_items;
    assert_eq!(items.len(), 1);
    let group = items.pop().unwrap();
    assert_eq!(group.grouping_kind, "mother");
    group
}

fn relabelled(id: &str) -> AlertGroupRecord {
    let mut group = mother();
    group.id = id.to_string();
    group
}

fn filters() -> AlertEventFilters {
    AlertEventFilters {
        alert_type: None,
        since: None,
        until: None,
        user_id: None,
        token_id: None,
        key_id: None,
        request_kinds: Vec::new(),
    }
}

fn fragments() -> AlertSqlFragments {
    AlertSqlFragments {
        auth_token_log_source: "auth_token_log".to_string(),
        maintenance_record_source: "api_key_maintenance_record".to_string(),
        effective_request_kind_sql: "EK".to_string(),
        effective_request_kind_label_sql: "EL".to_string(),
        maintenance_request_kind_sql: "MK".to_string(),
        maintenance_request_kind_label_sql: "ML".to_string(),
        request_rate_minutes: 5,
    }
}

fn ids(groups: &[AlertGroupRecord]) -> Vec<String> {
    groups.iter().map(|g| g.id.clone()).collect()
}

#[test]
fn mother_groups_take_their_regrouped_counterpart() {
    let page = vec![relabelled("page")];
    let regrouped = vec![relabelled("regrouped")];
    let result = populate_selected_mother_groups(page, regrouped);
    assert_eq!(ids(&result), vec!["regrouped"]);
}

#[test]
fn compatibility_groups_are_left_alone() {
    let mut compat = relabelled("page-compat");
    compat.grouping_kind = "compat".to_string();
    let mut regrouped_compat = relabelled("regrouped-compat");
    regrouped_compat.grouping_kind = "compat".to_string();
    let result = populate_selected_mother_groups(vec![compat], vec![regrouped_compat]);
    assert_eq!(ids(&result), vec!["page-compat"]);
    assert_eq!(result[0].grouping_kind, "compat");
}

#[test]
fn mother_groups_without_a_counterpart_keep_their_record() {
    let mut other = relabelled("regrouped-other");
    other.last_seen += 1;
    let result = populate_selected_mother_groups(vec![relabelled("page")], vec![other]);
    assert_eq!(ids(&result), vec!["page"]);
}

#[test]
fn each_regrouped_mother_is_taken_once() {
    let page = vec![relabelled("first"), relabelled("second")];
    let result = populate_selected_mother_groups(page, vec![relabelled("regrouped")]);
    assert_eq!(ids(&result), vec!["regrouped", "second"]);
}

#[test]
fn the_last_regrouped_mother_with_a_key_wins() {
    let regrouped = vec![relabelled("earlier"), relabelled("later")];
    let result = populate_selected_mother_groups(vec![relabelled("page")], regrouped);
    assert_eq!(ids(&result), vec!["later"]);
}

#[test]
fn regrouping_keeps_the_page_order() {
    let mut compat = relabelled("compat");
    compat.grouping_kind = "compat".to_string();
    let page = vec![compat, relabelled("page-mother")];
    let result = populate_selected_mother_groups(page, vec![relabelled("regrouped")]);
    assert_eq!(ids(&result), vec!["compat", "regrouped"]);
}

#[test]
fn no_mother_group_means_no_query() {
    let mut compat = relabelled("compat");
    compat.grouping_kind = "compat".to_string();
    assert!(KeyStore::selected_mother_events_query(&filters(), &fragments(), &vec![compat]).is_none());
    assert!(KeyStore::selected_mother_events_query(&filters(), &fragments(), &Vec::new()).is_none());
}

#[test]
fn mother_query_reads_each_selected_subject_and_range() {
    let kind_sql = KeyStore::alert_subject_kind_sql("alerts");
    let id_sql = KeyStore::alert_subject_id_sql("alerts");
    let mut later = relabelled("b");
    later.first_seen = 1_700_000_500;
    later.last_seen = 1_700_000_600;
    let query = KeyStore::selected_mother_events_query(&filters(), &fragments(), &vec![relabelled("a"), later])
        .expect("mother groups select events");
    let clause = format!(
        "(alerts.alert_type = ? AND {kind_sql} = ? AND {id_sql} = ? AND alerts.occurred_at >= ? AND alerts.occurred_at <= ?)"
    );
    let tail = format!(" SELECT * FROM alerts WHERE 1 = 1 AND ({clause} OR {clause}) ORDER BY occurred_at DESC, row_sort_id DESC");
    assert!(query.sql.starts_with("WITH alerts AS ("));
    assert!(query.sql.ends_with(&tail), "{}", query.sql);
    let n = query.binds.len();
    assert!(n >= 10);
    let last: Vec<String> = query.binds[n - 10..]
        .iter()
        .map(|b| match b {
            SqlBind::Text(s) => s.clone(),
            SqlBind::Int(v) => v.to_string(),
        })
        .collect();
    assert_eq!(
        last,
        vec![
            ALERT_TYPE_USER_REQUEST_RATE_LIMITED.to_string(),
            "user".to_string(),
            "usr_test".to_string(),
            "1700000000".to_string(),
            "1700000060".to_string(),
            ALERT_TYPE_USER_REQUEST_RATE_LIMITED.to_string(),
            "user".to_string(),
            "usr_test".to_string(),
            "1700000500".to_string(),
            "1700000600".to_string(),
        ]
    );
}

#[test]
fn mother_query_applies_the_request_kind_filter() {
    let mut f = filters();
    f.request_kinds = vec!["mcp_tools_list".to_string()];
    let query = KeyStore::selected_mother_events_query(&f, &fragments(), &vec![relabelled("a")]).unwrap();
    assert!(query
        .sql
        .contains(" SELECT * FROM alerts WHERE 1 = 1 AND COALESCE(NULLIF(TRIM(request_kind_key), ''), 'unknown') IN (?) AND ("));
}
