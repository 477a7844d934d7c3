use key_store::alerts::model::TokenRequestKind;
use key_store::migration::{
    build_request_kind_backfill_request_log_update, build_request_kind_backfill_token_log_update,
    normalize_request_kind_backfill_field, parse_request_kind_canonical_migration_state,
    request_kind_canonical_migration_is_fresh, request_kind_canonical_migration_state_blocks_reentry,
    RequestKindBackfillRequestLogRow, RequestKindBackfillTokenLogRow,
    RequestKindCanonicalMigrationState,
};

fn parse(v: &str) -> Option<RequestKindCanonicalMigrationState> {
    parse_request_kind_canonical_migration_state(Some(v.to_string()))
}

#[test]
fn states_render_as_meta_values() {
    assert_eq!(RequestKindCanonicalMigrationState::Running { heartbeat_at: 12, owner_pid: Some(34) }.as_meta_value(), "running:12:34");
    assert_eq!(RequestKindCanonicalMigrationState::Running { heartbeat_at: -5, owner_pid: None }.as_meta_value(), "running:-5");
    assert_eq!(RequestKindCanonicalMigrationState::Failed(7).as_meta_value(), "failed:7");
    assert_eq!(RequestKindCanonicalMigrationState::Done(0).as_meta_value(), "done:0");
}

#[test]
fn meta_values_parse_back() {
    for state in [
        RequestKindCanonicalMigrationState::Running { heartbeat_at: 1_700_000_000, owner_pid: Some(u32::MAX) },
        RequestKindCanonicalMigrationState::Running { heartbeat_at: i64::MIN, owner_pid: None },
        RequestKindCanonicalMigrationState::Failed(i64::MAX),
        RequestKindCanonicalMigrationState::Done(42),
    ] {
        assert_eq!(parse(&state.as_meta_value()), Some(state));
    }
}

#[test]
fn malformed_meta_values_parse_to_nothing() {
    assert_eq!(parse_request_kind_canonical_migration_state(None), None);
    assert_eq!(parse("running"), None);
    assert_eq!(parse("running:x"), None);
    assert_eq!(parse("running:1:-2"), None);
    assert_eq!(parse("running:1:2:3"), None);
    assert_eq!(parse("failed:1:2"), None);
    assert_eq!(parse("paused:1"), None);
    assert_eq!(parse("done:5:1"), None);
    assert_eq!(parse("running:1:x"), None);
    assert_eq!(parse("done"), None);
    assert_eq!(parse("done:+9"), Some(RequestKindCanonicalMigrationState::Done(9)));
    assert_eq!(parse("running:5:+7"), Some(RequestKindCanonicalMigrationState::Running { heartbeat_at: 5, owner_pid: Some(7) }));
}

#[test]
fn freshness_and_reentry() {
    assert!(request_kind_canonical_migration_is_fresh(100, 50, 60));
    assert!(!request_kind_canonical_migration_is_fresh(200, 50, 60));
    let running = RequestKindCanonicalMigrationState::Running { heartbeat_at: 90, owner_pid: Some(1) };
    assert_eq!(request_kind_canonical_migration_state_blocks_reentry(100, running, 60, true), Some(90));
    assert_eq!(request_kind_canonical_migration_state_blocks_reentry(100, running, 60, false), None);
    assert_eq!(request_kind_canonical_migration_state_blocks_reentry(1000, running, 60, true), None);
    let anonymous = RequestKindCanonicalMigrationState::Running { heartbeat_at: 90, owner_pid: None };
    assert_eq!(request_kind_canonical_migration_state_blocks_reentry(100, anonymous, 60, false), Some(90));
    assert_eq!(request_kind_canonical_migration_state_blocks_reentry(100, RequestKindCanonicalMigrationState::Done(90), 60, true), None);
}

#[test]
fn backfill_fields_are_trimmed() {
    assert_eq!(normalize_request_kind_backfill_field(Some("  key ".to_string())), Some("key".to_string()));
    assert_eq!(normalize_request_kind_backfill_field(Some("   ".to_string())), None);
    assert_eq!(normalize_request_kind_backfill_field(None), None);
}

#[test]
fn backfill_updates_only_rows_that_differ() {
    let row = RequestKindBackfillRequestLogRow {
        id: 9,
        path: "/mcp".to_string(),
        request_body: None,
        request_kind_key: Some(" mcp:tools/list ".to_string()),
        request_kind_label: Some("MCP tools/list".to_string()),
        request_kind_detail: None,
    };
    let same = TokenRequestKind::new("mcp:tools/list", "MCP tools/list", Some("  ".to_string()));
    assert!(build_request_kind_backfill_request_log_update(row, same).is_none());

    let row = RequestKindBackfillTokenLogRow {
        id: 11,
        method: "POST".to_string(),
        path: "/mcp".to_string(),
        query: None,
        request_kind_key: Some("old".to_string()),
        request_kind_label: None,
        request_kind_detail: None,
    };
    let kind = TokenRequestKind::new("mcp:tools/list", "MCP tools/list", Some(" detail ".to_string()));
    let update = build_request_kind_backfill_token_log_update(row, kind).expect("an update");
    assert_eq!(update.id, 11);
    assert_eq!(update.request_kind_key, "mcp:tools/list");
    assert_eq!(update.request_kind_label, "MCP tools/list");
    assert_eq!(update.request_kind_detail, Some("detail".to_string()));
}
