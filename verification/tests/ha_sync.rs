use key_store::error::ProxyError;
use key_store::sqlite::sqlite_table_exists_sql;
use key_store::ha::{
    ensure_ha_resource_whitelisted, ha_baseline_clear_sql, ha_baseline_count_sql, ha_baseline_select_sql,
    ha_baseline_tables, ha_channel_allowed_resources_sql, ha_channel_event_table,
    ha_channel_event_tables, ha_channel_outbox_trigger_prefixes, ha_channel_retention_secs,
    ha_channel_sequence_name, ha_column_ref, ha_export_json_arg, ha_resource_allowed_for_channel,
    ha_runtime_counter_local_value_expr, ha_runtime_counter_scope_expr,
    ha_runtime_counter_value_column, ha_trigger_json_object, ha_trigger_name,
    ha_trigger_resource_id, parse_ha_node_role, quote_sqlite_identifier, quote_sqlite_string,
    HaNodeRole, HaSyncChannel,
};

#[test]
fn baseline_tables_per_channel() {
    assert_eq!(ha_baseline_tables(HaSyncChannel::Billing), vec!["billing_ledger"]);
    let control = ha_baseline_tables(HaSyncChannel::Control);
    assert_eq!(control.len(), 18);
    assert_eq!(control[0], "announcements");
    assert_eq!(control[17], "users");
    assert_eq!(ha_baseline_tables(HaSyncChannel::Runtime).len(), 12);
}

#[test]
fn resources_allowed_per_channel() {
    assert!(ha_resource_allowed_for_channel(HaSyncChannel::Control, "users"));
    assert!(ha_resource_allowed_for_channel(HaSyncChannel::Control, "meta"));
    assert!(ha_resource_allowed_for_channel(HaSyncChannel::Billing, "billing_ledger"));
    assert!(!ha_resource_allowed_for_channel(HaSyncChannel::Billing, "users"));
    assert!(!ha_resource_allowed_for_channel(HaSyncChannel::Runtime, "request_logs"));
}

#[test]
fn whitelist_error_names_channel_and_resource() {
    assert!(ensure_ha_resource_whitelisted(HaSyncChannel::Control, "users").is_ok());
    match ensure_ha_resource_whitelisted(HaSyncChannel::Billing, "users") {
        Err(ProxyError::Other(m)) => assert_eq!(m, "HA billing resource is not whitelisted: users"),
        _ => panic!("expected a whitelist error"),
    }
}

#[test]
fn event_tables_sequences_and_retention() {
    assert_eq!(ha_channel_event_table(HaSyncChannel::Control), "ha_outbox");
    assert_eq!(ha_channel_event_table(HaSyncChannel::Billing), "ha_billing_outbox");
    assert_eq!(ha_channel_sequence_name(HaSyncChannel::Runtime), "ha_runtime_outbox");
    assert_eq!(ha_channel_event_tables(HaSyncChannel::Billing), vec!["billing_ledger"]);
    assert_eq!(ha_channel_retention_secs(HaSyncChannel::Control), 259200);
    assert_eq!(ha_channel_retention_secs(HaSyncChannel::Runtime), 7948800);
}

#[test]
fn trigger_prefixes_and_names() {
    assert_eq!(
        ha_channel_outbox_trigger_prefixes(HaSyncChannel::Control),
        vec!["trg_ha_control_".to_string(), "trg_ha_outbox_".to_string()]
    );
    assert_eq!(ha_channel_outbox_trigger_prefixes(HaSyncChannel::Billing), vec!["trg_ha_billing_".to_string()]);
    let name = ha_trigger_name(HaSyncChannel::Runtime, "mcp_sessions", "insert");
    assert_eq!(name, "trg_ha_runtime_mcp_sessions_insert");
    assert!(name.starts_with(&ha_channel_outbox_trigger_prefixes(HaSyncChannel::Runtime)[0]));
}

#[test]
fn quoting_doubles_inner_quotes() {
    assert_eq!(quote_sqlite_identifier("a\"b"), "\"a\"\"b\"");
    assert_eq!(quote_sqlite_string("it's"), "'it''s'");
    assert_eq!(quote_sqlite_string(""), "''");
}

#[test]
fn allowed_resources_sql_lists_event_tables() {
    assert_eq!(ha_channel_allowed_resources_sql(HaSyncChannel::Billing), "'billing_ledger'");
}

#[test]
fn baseline_select_and_count_sql() {
    assert_eq!(
        ha_baseline_select_sql("billing_ledger", "'a', a"),
        "SELECT json_object('a', a) AS row_json FROM \"billing_ledger\" WHERE auth_token_log_id > 0 ORDER BY rowid ASC"
    );
    assert_eq!(
        ha_baseline_select_sql("users", "'id', id"),
        "SELECT json_object('id', id) AS row_json FROM \"users\" ORDER BY rowid ASC"
    );
    assert_eq!(ha_baseline_count_sql("users"), "SELECT COUNT(*) FROM \"users\"");
    assert!(ha_baseline_count_sql("meta").starts_with("SELECT COUNT(*) FROM \"meta\" WHERE key IN ('"));
}

#[test]
fn column_refs_and_runtime_counters() {
    assert_eq!(ha_column_ref(Some("NEW"), "id"), "NEW.\"id\"");
    assert_eq!(ha_column_ref(None, "id"), "\"id\"");
    assert_eq!(
        ha_runtime_counter_scope_expr("auth_token_quota", Some("t")),
        Some(("t.\"token_id\"".to_string(), "t.\"month_start\"".to_string()))
    );
    assert_eq!(
        ha_runtime_counter_scope_expr("token_usage_buckets", None),
        Some(("\"token_id\"".to_string(), "CAST(\"granularity\" AS TEXT) || ':' || CAST(\"bucket_start\" AS TEXT)".to_string()))
    );
    assert_eq!(ha_runtime_counter_scope_expr("users", None), None);
    assert_eq!(ha_runtime_counter_value_column("account_monthly_quota"), Some("month_count"));
    assert_eq!(ha_runtime_counter_value_column("account_usage_buckets"), Some("count"));
    assert_eq!(ha_runtime_counter_value_column("users"), None);
}

#[test]
fn runtime_counter_local_value_only_on_runtime_counters() {
    assert_eq!(ha_runtime_counter_local_value_expr(HaSyncChannel::Control, "auth_token_quota", None, "month_count"), None);
    assert_eq!(ha_runtime_counter_local_value_expr(HaSyncChannel::Runtime, "auth_token_quota", None, "token_id"), None);
    assert_eq!(
        ha_runtime_counter_local_value_expr(HaSyncChannel::Runtime, "auth_token_quota", None, "month_count"),
        Some("MAX(0, COALESCE(\"month_count\", 0) - COALESCE((SELECT SUM(counter_value) FROM ha_runtime_counter_imports WHERE resource = 'auth_token_quota' AND resource_id = CAST(\"token_id\" AS TEXT) AND counter_scope = CAST(\"month_start\" AS TEXT)), 0))".to_string())
    );
}

#[test]
fn export_json_args_and_objects() {
    assert_eq!(ha_export_json_arg(HaSyncChannel::Control, "users", Some("NEW"), "id"), "'id', NEW.\"id\"");
    let cols = vec!["id".to_string(), "name".to_string()];
    assert_eq!(
        ha_trigger_json_object(HaSyncChannel::Control, "users", "NEW", &cols),
        "json_object('id', NEW.\"id\", 'name', NEW.\"name\")"
    );
}

#[test]
fn trigger_resource_id_prefers_id_then_log_id() {
    assert_eq!(
        ha_trigger_resource_id("NEW", &vec!["name".to_string(), "id".to_string()]),
        "COALESCE(CAST(NEW.\"id\" AS TEXT), CAST(NEW.rowid AS TEXT))"
    );
    assert_eq!(
        ha_trigger_resource_id("OLD", &vec!["auth_token_log_id".to_string()]),
        "COALESCE(CAST(OLD.\"auth_token_log_id\" AS TEXT), CAST(OLD.rowid AS TEXT))"
    );
    assert_eq!(ha_trigger_resource_id("NEW", &vec!["x".to_string()]), "CAST(NEW.rowid AS TEXT)");
}

#[test]
fn node_roles_parse() {
    assert_eq!(parse_ha_node_role("full_master"), Some(HaNodeRole::FullMaster));
    assert_eq!(parse_ha_node_role("provisional_master"), Some(HaNodeRole::ProvisionalMaster));
    assert_eq!(parse_ha_node_role("standby"), Some(HaNodeRole::Standby));
    assert_eq!(parse_ha_node_role("recovery"), Some(HaNodeRole::Recovery));
    assert_eq!(parse_ha_node_role("Standby"), None);
}

#[test]
fn baseline_replace_clears_tables() {
    assert_eq!(ha_baseline_clear_sql("users"), "DELETE FROM \"users\"");
    assert_eq!(ha_baseline_clear_sql("we\"ird"), "DELETE FROM \"we\"\"ird\"");
    let meta = ha_baseline_clear_sql("meta");
    assert!(meta.starts_with("DELETE FROM \"meta\" WHERE key IN ('allow_registration_v1', "));
    assert!(meta.ends_with("'user_blocked_key_base_limit_v1')"));
    assert_eq!(
        sqlite_table_exists_sql("request_logs"),
        "SELECT EXISTS(SELECT 1 FROM observability.sqlite_master WHERE type = 'table' AND name = ?)"
    );
    assert_eq!(
        sqlite_table_exists_sql("users"),
        "SELECT EXISTS(SELECT 1 FROM sqlite_master WHERE type = 'table' AND name = ?)"
    );
}
