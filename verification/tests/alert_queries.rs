use key_store::alerts::queries::{
    normalize_alert_request_kind_filters, AlertEventFilters, AlertSqlFragments,
};
use key_store::sql::{SqlBind, SqlQuery};
use key_store::store::KeyStore;

fn filters() -> AlertEventFilters {
    AlertEventFilters {
        alert_type: None,
        since: None,
        until: None,
        user_id: None,
        token_id: None,
        key_id: None,
        request_kinds: Vec::new(),
    }
}

fn fragments() -> AlertSqlFragments {
    AlertSqlFragments {
        auth_token_log_source: "auth_token_log".to_string(),
        maintenance_record_source: "api_key_maintenance_record".to_string(),
        effective_request_kind_sql: "EK".to_string(),
        effective_request_kind_label_sql: "EL".to_string(),
        maintenance_request_kind_sql: "MK".to_string(),
        maintenance_request_kind_label_sql: "ML".to_string(),
        request_rate_minutes: 5,
    }
}

fn texts(q: &SqlQuery) -> Vec<String> {
    q.binds
        .iter()
        .map(|b| match b {
            SqlBind::Text(s) => s.clone(),
            SqlBind::Int(v) => v.to_string(),
        })
        .collect()
}

#[test]
fn subject_sql_prefers_keys_for_upstream_alerts() {
    assert_eq!(
        KeyStore::alert_subject_kind_sql("a"),
        "CASE WHEN a.alert_type IN ('upstream_rate_limited_429', 'upstream_usage_limit_432', 'upstream_key_blocked') AND a.key_id IS NOT NULL THEN 'key' WHEN a.user_id IS NOT NULL THEN 'user' WHEN a.token_id IS NOT NULL THEN 'token' WHEN a.key_id IS NOT NULL THEN 'key' ELSE 'token' END"
    );
    assert_eq!(
        KeyStore::alert_subject_id_sql("a"),
        "CASE WHEN a.alert_type IN ('upstream_rate_limited_429', 'upstream_usage_limit_432', 'upstream_key_blocked') AND a.key_id IS NOT NULL THEN a.key_id WHEN a.user_id IS NOT NULL THEN a.user_id WHEN a.token_id IS NOT NULL THEN a.token_id WHEN a.key_id IS NOT NULL THEN a.key_id ELSE 'unknown' END"
    );
    assert_eq!(
        KeyStore::alert_group_request_kind_sql("alerts"),
        "COALESCE(NULLIF(TRIM(alerts.request_kind_key), ''), 'unknown')"
    );
}

#[test]
fn request_kind_filters_are_deduplicated_in_order() {
    let kinds = vec!["b".to_string(), "a".to_string(), "b".to_string(), "c".to_string(), "a".to_string()];
    assert_eq!(normalize_alert_request_kind_filters(&kinds), vec!["b".to_string(), "a".to_string(), "c".to_string()]);
    assert!(normalize_alert_request_kind_filters(&Vec::new()).is_empty());
}

#[test]
fn request_kind_filter_binds_each_kind_once() {
    let mut q = SqlQuery::new("SELECT 1 WHERE 1 = 1");
    KeyStore::push_alert_request_kind_filter(&mut q, "k", &vec!["x".to_string(), "y".to_string(), "x".to_string()]);
    assert_eq!(q.sql, "SELECT 1 WHERE 1 = 1 AND k IN (?, ?)");
    assert_eq!(texts(&q), vec!["x".to_string(), "y".to_string()]);

    let mut empty = SqlQuery::new("S");
    KeyStore::push_alert_request_kind_filter(&mut empty, "k", &Vec::new());
    assert_eq!(empty.sql, "S");
    assert!(empty.binds.is_empty());
}

#[test]
fn auth_filters_follow_the_alert_type() {
    let mut f = filters();
    f.alert_type = Some("upstream_rate_limited_429".to_string());
    f.since = Some(10);
    f.key_id = Some("key_1".to_string());
    let mut q = SqlQuery::new("");
    KeyStore::push_auth_alert_filters(&mut q, &f, "KEY");
    assert_eq!(q.sql, " AND atl.failure_kind = ? AND atl.created_at >= ? AND KEY = ?");
    assert_eq!(texts(&q), vec!["upstream_rate_limited_429".to_string(), "10".to_string(), "key_1".to_string()]);

    let mut f = filters();
    f.alert_type = Some("upstream_key_blocked".to_string());
    let mut q = SqlQuery::new("");
    KeyStore::push_auth_alert_filters(&mut q, &f, "KEY");
    assert_eq!(q.sql, " AND 1 = 0");

    let mut f = filters();
    f.alert_type = Some("user_request_rate_limited".to_string());
    f.user_id = Some("usr".to_string());
    f.token_id = Some("tok".to_string());
    f.until = Some(20);
    let mut q = SqlQuery::new("");
    KeyStore::push_auth_alert_filters(&mut q, &f, "KEY");
    assert_eq!(
        q.sql,
        " AND atl.result_status = 'quota_exhausted' AND atl.counts_business_quota = 0 AND atl.created_at <= ? AND u.id = ? AND atl.token_id = ?"
    );
    assert_eq!(texts(&q), vec!["20".to_string(), "usr".to_string(), "tok".to_string()]);
}

#[test]
fn maintenance_filters_only_match_blocked_keys() {
    let mut f = filters();
    f.alert_type = Some("user_quota_exhausted".to_string());
    f.token_id = Some("tok".to_string());
    let mut q = SqlQuery::new("");
    KeyStore::push_maintenance_alert_filters(&mut q, &f);
    assert_eq!(q.sql, " AND 1 = 0 AND COALESCE(m.auth_token_id, atl.token_id) = ?");

    let mut f = filters();
    f.alert_type = Some("upstream_key_blocked".to_string());
    f.key_id = Some("k".to_string());
    let mut q = SqlQuery::new("");
    KeyStore::push_maintenance_alert_filters(&mut q, &f);
    assert_eq!(q.sql, " AND m.key_id = ?");
}

#[test]
fn events_cte_binds_sources_and_filters_in_order() {
    let mut f = filters();
    f.since = Some(100);
    let mut q = SqlQuery::new("");
    KeyStore::push_alert_events_cte(&mut q, &f, &fragments());
    assert!(q.sql.starts_with("WITH alerts AS ( SELECT ? AS source_kind,"));
    assert!(q.sql.contains("EK AS request_kind_key"));
    assert!(q.sql.contains("MK AS request_kind_key"));
    assert!(q.sql.ends_with(")"));
    assert_eq!(
        texts(&q),
        vec!["auth_token_log".to_string(), "100".to_string(), "api_key_maintenance_record".to_string(), "100".to_string()]
    );
    assert_eq!(q.sql.matches('?').count(), q.binds.len());
}

#[test]
fn groups_cte_splices_the_rate_window() {
    let mut f = filters();
    f.request_kinds = vec!["mcp_tools_list".to_string()];
    let mut q = SqlQuery::new("");
    KeyStore::push_alert_groups_cte(&mut q, &f, &fragments());
    assert!(q.sql.contains("THEN 5\n"));
    assert!(q.sql.contains("alerts.occurred_at - 300"));
    assert!(q.sql.contains("COALESCE(NULLIF(TRIM(request_kind_key_normalized), ''), 'unknown') IN (?)"));
    assert!(q.sql.trim_end().ends_with("grouped_alerts AS (\n                SELECT * FROM semantic_grouped_alerts WHERE group_rank = 1\n                UNION ALL\n                SELECT * FROM compat_grouped_alerts WHERE group_rank = 1\n            )"));
    assert_eq!(texts(&q).last(), Some(&"mcp_tools_list".to_string()));
}
