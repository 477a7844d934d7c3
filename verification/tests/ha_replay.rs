use key_store::error::ProxyError;
use key_store::ha::HaSyncChannel;
use key_store::ha_apply::{
    ha_apply_finish_check, ha_baseline_line_step, ha_event_row_action, ha_events_line_step,
    ha_resource_cleared_columns, HaApplyProgress, HaBaselineLine, HaEventRowAction, HaEventsLine,
};
use key_store::ha_counters::{
    ha_json_i64_field, ha_json_string_field, ha_runtime_counter_import_for_row, ha_runtime_counter_merge_start,
    ha_runtime_counter_shadow_update, HaCounterMergeStart, HaJsonScalar, HaRuntimeCounterFields,
};
use key_store::ha_events::{
    ha_events_cursor_check, ha_node_interaction_event_order, ha_node_interaction_limits, ha_node_interaction_operation_ids,
    ha_outbox_stats,
};
use key_store::ha_rows::{
    ha_billing_ledger_import_step, ha_delete_sql, ha_upsert_sql, next_peer_billing_ledger_local_id,
    HaBillingLedgerImport, HaRowDelete, SqliteColumnInfo,
};

fn message<T>(r: Result<T, ProxyError>) -> String {
    match r {
        Err(ProxyError::Other(m)) => m,
        _ => panic!("expected an error message"),
    }
}

fn s(v: &str) -> HaJsonScalar {
    HaJsonScalar::Str(v.to_string())
}

fn row(entries: Vec<(&str, HaJsonScalar)>) -> Option<Vec<(String, HaJsonScalar)>> {
    Some(entries.into_iter().map(|(k, v)| (k.to_string(), v)).collect())
}

#[test]
fn counter_fields_are_trimmed_and_parsed() {
    let o = row(vec![("id", s("  tok  ")), ("n", s(" 42 ")), ("big", HaJsonScalar::U64(u64::MAX)), ("blank", s("   ")), ("num", HaJsonScalar::I64(5))]).unwrap();
    assert_eq!(ha_json_string_field(&o, "t", "id").unwrap(), "tok");
    assert_eq!(ha_json_i64_field(&o, "t", "n").unwrap(), 42);
    assert_eq!(message(ha_json_i64_field(&o, "t", "big")), "HA counter payload has invalid big for t");
    assert_eq!(message(ha_json_string_field(&o, "t", "blank")), "HA counter payload missing blank for t");
    assert_eq!(message(ha_json_i64_field(&o, "t", "absent")), "HA counter payload missing absent for t");
    assert_eq!(message(ha_json_string_field(&o, "t", "num")), "HA counter payload missing num for t");
    assert_eq!(ha_json_i64_field(&o, "t", "num").unwrap(), 5);
}

#[test]
fn quota_rows_become_monthly_counters() {
    let r = row(vec![("token_id", s("tok_1")), ("month_start", HaJsonScalar::I64(1_700_000_000)), ("month_count", HaJsonScalar::I64(7))]);
    let c = ha_runtime_counter_import_for_row("auth_token_quota", &r).unwrap().unwrap();
    assert_eq!(c.resource_id, "tok_1");
    assert_eq!(c.counter_scope, "1700000000");
    assert_eq!(c.counter_value, 7);
    match c.fields {
        HaRuntimeCounterFields::AuthTokenQuota { token_id, month_start } => {
            assert_eq!(token_id, "tok_1");
            assert_eq!(month_start, 1_700_000_000);
        }
        _ => panic!("expected a token quota"),
    }
}

#[test]
fn usage_rows_are_scoped_by_granularity_and_bucket() {
    let r = row(vec![
        ("user_id", s("usr_1")),
        ("bucket_start", s("-60")),
        ("granularity", s("minute")),
        ("count", HaJsonScalar::I64(3)),
    ]);
    let c = ha_runtime_counter_import_for_row("account_usage_buckets", &r).unwrap().unwrap();
    assert_eq!(c.counter_scope, "minute:-60");
    assert_eq!(c.resource_id, "usr_1");
    match c.fields {
        HaRuntimeCounterFields::AccountUsageBucket { user_id, bucket_start, granularity } => {
            assert_eq!(user_id, "usr_1");
            assert_eq!(bucket_start, -60);
            assert_eq!(granularity, "minute");
        }
        _ => panic!("expected an account usage bucket"),
    }
}

#[test]
fn other_tables_and_non_objects_carry_no_counter() {
    assert!(ha_runtime_counter_import_for_row("users", &row(vec![])).unwrap().is_none());
    assert!(ha_runtime_counter_import_for_row("auth_token_quota", &None).unwrap().is_none());
}

#[test]
fn negative_counts_are_refused() {
    let r = row(vec![("user_id", s("u")), ("month_start", HaJsonScalar::I64(0)), ("month_count", HaJsonScalar::I64(-1))]);
    assert_eq!(
        message(ha_runtime_counter_import_for_row("account_monthly_quota", &r)),
        "HA counter payload has negative count for account_monthly_quota"
    );
}

#[test]
fn merge_takes_counters_only_on_the_runtime_channel() {
    let r = row(vec![("token_id", s("t")), ("month_start", HaJsonScalar::I64(0)), ("month_count", HaJsonScalar::I64(5))]);
    assert!(matches!(
        ha_runtime_counter_merge_start(HaSyncChannel::Control, "auth_token_quota", "upsert", &r),
        Ok(HaCounterMergeStart::Done(false))
    ));
    assert!(matches!(
        ha_runtime_counter_merge_start(HaSyncChannel::Runtime, "auth_token_quota", "delete", &r),
        Ok(HaCounterMergeStart::Done(true))
    ));
    assert!(matches!(
        ha_runtime_counter_merge_start(HaSyncChannel::Runtime, "auth_token_quota", "truncate", &r),
        Ok(HaCounterMergeStart::Done(false))
    ));
    match ha_runtime_counter_merge_start(HaSyncChannel::Runtime, "auth_token_quota", "upsert", &r) {
        Ok(HaCounterMergeStart::Import(c)) => assert_eq!(c.counter_value, 5),
        _ => panic!("expected an import"),
    }
}

#[test]
fn shadow_keeps_the_peak_and_counts_each_rise_once() {
    let first = ha_runtime_counter_shadow_update(0, 10);
    assert_eq!((first.shadow_value, first.delta), (10, 10));
    let again = ha_runtime_counter_shadow_update(first.shadow_value, 10);
    assert_eq!((again.shadow_value, again.delta), (10, 0));
    let lower = ha_runtime_counter_shadow_update(10, 4);
    assert_eq!((lower.shadow_value, lower.delta), (10, 0));
    let higher = ha_runtime_counter_shadow_update(10, 15);
    assert_eq!((higher.shadow_value, higher.delta), (15, 5));
    assert_eq!(first.delta + again.delta + lower.delta + higher.delta, higher.shadow_value);
}

#[test]
fn baseline_markers_set_the_watermark() {
    let mut p = HaApplyProgress::new();
    assert!(ha_baseline_line_step(&mut p, HaSyncChannel::Runtime, HaBaselineLine::Start { high_watermark: Some(-5) }).unwrap().is_none());
    assert!(p.saw_start);
    assert_eq!(p.high_watermark, 0);
    ha_baseline_line_step(&mut p, HaSyncChannel::Runtime, HaBaselineLine::End { high_watermark: Some(40) }).unwrap();
    assert!(p.saw_end);
    assert_eq!(p.high_watermark, 40);
    ha_baseline_line_step(&mut p, HaSyncChannel::Runtime, HaBaselineLine::End { high_watermark: Some(10) }).unwrap();
    assert_eq!(p.high_watermark, 40);
    assert!(ha_apply_finish_check(&p, true).is_ok());
}

#[test]
fn baseline_resources_are_checked() {
    let mut p = HaApplyProgress::new();
    assert_eq!(
        message(ha_baseline_line_step(&mut p, HaSyncChannel::Billing, HaBaselineLine::Resource { resource: None, has_data: true })),
        "HA baseline resource is missing"
    );
    assert_eq!(
        message(ha_baseline_line_step(
            &mut p,
            HaSyncChannel::Billing,
            HaBaselineLine::Resource { resource: Some("users".to_string()), has_data: true }
        )),
        "HA billing resource is not whitelisted: users"
    );
    assert_eq!(
        message(ha_baseline_line_step(
            &mut p,
            HaSyncChannel::Billing,
            HaBaselineLine::Resource { resource: Some("billing_ledger".to_string()), has_data: false }
        )),
        "HA baseline resource data is missing"
    );
    assert_eq!(
        ha_baseline_line_step(
            &mut p,
            HaSyncChannel::Billing,
            HaBaselineLine::Resource { resource: Some("billing_ledger".to_string()), has_data: true }
        )
        .unwrap(),
        Some("billing_ledger".to_string())
    );
    assert_eq!(
        message(ha_baseline_line_step(&mut p, HaSyncChannel::Billing, HaBaselineLine::Unsupported { kind_debug: "Some(\"x\")".to_string() })),
        "unsupported HA baseline record kind: Some(\"x\")"
    );
    assert_eq!(message(ha_apply_finish_check(&p, true)), "HA baseline must include baseline_start and baseline_end");
}

#[test]
fn events_default_their_operation_and_raise_the_watermark() {
    let mut p = HaApplyProgress::new();
    ha_events_line_step(&mut p, HaSyncChannel::Billing, HaEventsLine::Start).unwrap();
    let apply = ha_events_line_step(
        &mut p,
        HaSyncChannel::Billing,
        HaEventsLine::Event { has_event: true, resource: Some("billing_ledger".to_string()), op: None, resource_id: None, seq: Some(9) },
    )
    .unwrap()
    .unwrap();
    assert_eq!(apply.resource, "billing_ledger");
    assert_eq!(apply.op, "upsert");
    assert_eq!(apply.resource_id, "");
    assert_eq!(p.high_watermark, 9);
    ha_events_line_step(&mut p, HaSyncChannel::Billing, HaEventsLine::End { last_seq: Some(3) }).unwrap();
    assert_eq!(p.high_watermark, 9);
    assert!(ha_apply_finish_check(&p, false).is_ok());
    assert_eq!(
        message(ha_events_line_step(
            &mut p,
            HaSyncChannel::Billing,
            HaEventsLine::Event { has_event: false, resource: None, op: None, resource_id: None, seq: None }
        )),
        "HA event wrapper is missing event"
    );
    assert_eq!(message(ha_apply_finish_check(&HaApplyProgress::new(), false)), "HA events must include events_start and events_end");
}

#[test]
fn event_operations_map_to_row_actions() {
    assert_eq!(ha_event_row_action("delete").unwrap(), HaEventRowAction::Delete);
    assert_eq!(ha_event_row_action("upsert").unwrap(), HaEventRowAction::Upsert);
    assert_eq!(message(ha_event_row_action("merge")), "unsupported HA event operation: merge");
}

#[test]
fn request_log_references_are_cleared() {
    assert_eq!(ha_resource_cleared_columns("api_key_maintenance_records"), vec!["request_log_id", "auth_token_log_id"]);
    assert_eq!(ha_resource_cleared_columns("api_key_transient_backoffs"), vec!["source_request_log_id"]);
    assert!(ha_resource_cleared_columns("users").is_empty());
}

fn cols(spec: &[(&str, i64)]) -> Vec<SqliteColumnInfo> {
    spec.iter().map(|(n, pk)| SqliteColumnInfo { name: n.to_string(), pk: *pk }).collect()
}

fn keys(names: &[&str]) -> Vec<String> {
    names.iter().map(|n| n.to_string()).collect()
}

#[test]
fn keyed_upsert_updates_the_other_columns() {
    let u = ha_upsert_sql("t", &cols(&[("b", 2), ("a", 1), ("v", 0), ("w", 0)]), &keys(&["v", "a", "b", "extra"])).unwrap();
    assert_eq!(
        u.sql,
        "INSERT INTO \"t\" (\"b\", \"a\", \"v\") VALUES (?, ?, ?) ON CONFLICT(\"a\", \"b\") DO UPDATE SET \"v\" = excluded.\"v\""
    );
    assert_eq!(u.columns, keys(&["b", "a", "v"]));
}

#[test]
fn key_only_rows_do_nothing_on_conflict_and_keyless_tables_replace() {
    let u = ha_upsert_sql("t", &cols(&[("id", 1)]), &keys(&["id"])).unwrap();
    assert_eq!(u.sql, "INSERT INTO \"t\" (\"id\") VALUES (?) ON CONFLICT(\"id\") DO NOTHING");
    let u = ha_upsert_sql("t", &cols(&[("x", 0)]), &keys(&["x"])).unwrap();
    assert_eq!(u.sql, "INSERT OR REPLACE INTO \"t\" (\"x\") VALUES (?)");
}

#[test]
fn upserts_need_columns_and_the_whole_key() {
    assert_eq!(message(ha_upsert_sql("t", &cols(&[("x", 0)]), &keys(&["y"]))), "HA row payload has no columns for t");
    assert_eq!(
        message(ha_upsert_sql("t", &cols(&[("id", 1), ("x", 0)]), &keys(&["x"]))),
        "HA row payload is missing primary key columns for t"
    );
}

#[test]
fn deletes_go_by_key_or_by_resource_id() {
    match ha_delete_sql("t", &cols(&[("b", 2), ("a", 1)]), &Some(keys(&["a", "b"]))) {
        HaRowDelete::ByPrimaryKey { sql, key_columns } => {
            assert_eq!(sql, "DELETE FROM \"t\" WHERE \"a\" = ? AND \"b\" = ?");
            assert_eq!(key_columns, keys(&["a", "b"]));
        }
        _ => panic!("expected a delete by key"),
    }
    match ha_delete_sql("t", &cols(&[("id", 1)]), &None) {
        HaRowDelete::ByResourceId { sql } => assert_eq!(sql, "DELETE FROM \"t\" WHERE \"id\" = ?"),
        _ => panic!("expected a delete by id"),
    }
    match ha_delete_sql("t", &cols(&[("k", 0)]), &Some(keys(&["k"]))) {
        HaRowDelete::ByResourceId { sql } => assert_eq!(sql, "DELETE FROM \"t\" WHERE rowid = ?"),
        _ => panic!("expected a delete by rowid"),
    }
}

#[test]
fn imported_billing_ids_count_down_below_every_used_id() {
    assert_eq!(next_peer_billing_ledger_local_id(None, None).unwrap(), -1);
    assert_eq!(next_peer_billing_ledger_local_id(Some(-7), Some(-3)).unwrap(), -8);
    assert_eq!(next_peer_billing_ledger_local_id(Some(5), None).unwrap(), -1);
    assert_eq!(
        message(next_peer_billing_ledger_local_id(Some(i64::MIN), None)),
        "HA billing ledger import id namespace exhausted"
    );
}

#[test]
fn billing_ledger_rows_are_mapped_by_operation() {
    let r = row(vec![("auth_token_log_id", HaJsonScalar::I64(12))]);
    assert_eq!(
        ha_billing_ledger_import_step("upsert", &r).unwrap(),
        HaBillingLedgerImport::MapId { peer_auth_token_log_id: 12, create: true }
    );
    assert_eq!(
        ha_billing_ledger_import_step("delete", &r).unwrap(),
        HaBillingLedgerImport::MapId { peer_auth_token_log_id: 12, create: false }
    );
    assert_eq!(ha_billing_ledger_import_step("other", &r).unwrap(), HaBillingLedgerImport::KeepRow);
    let local = row(vec![("auth_token_log_id", HaJsonScalar::I64(-4))]);
    assert_eq!(ha_billing_ledger_import_step("upsert", &local).unwrap(), HaBillingLedgerImport::Skip);
    assert_eq!(
        message(ha_billing_ledger_import_step("upsert", &None)),
        "HA billing ledger payload must be a JSON object"
    );
}

#[test]
fn node_pages_read_three_times_their_size_and_keep_one_extra() {
    assert_eq!(ha_node_interaction_limits(0), (3, 2));
    assert_eq!(ha_node_interaction_limits(50), (150, 51));
    assert_eq!(ha_node_interaction_limits(1000), (600, 201));
}

#[test]
fn operation_ids_are_distinct_and_not_blank() {
    let ops = vec![Some("op-1".to_string()), None, Some("  ".to_string()), Some("op-2".to_string()), Some("op-1".to_string())];
    assert_eq!(ha_node_interaction_operation_ids(&ops), vec!["op-1".to_string(), "op-2".to_string()]);
}

#[test]
fn merged_events_are_unique_newest_first_and_bounded() {
    let keys = vec![(5, 50), (9, 90), (5, 51), (7, 70), (8, 80)];
    assert_eq!(ha_node_interaction_event_order(&keys, 10), vec![1, 4, 3, 0]);
    assert_eq!(ha_node_interaction_event_order(&keys, 1), vec![1, 4]);
    assert!(ha_node_interaction_event_order(&Vec::new(), 5).is_empty());
}

#[test]
fn readers_behind_retention_are_refused() {
    assert!(ha_events_cursor_check(HaSyncChannel::Control, 0, None, Some(50)).is_ok());
    assert!(ha_events_cursor_check(HaSyncChannel::Control, 40, None, Some(40)).is_ok());
    assert_eq!(message(ha_events_cursor_check(HaSyncChannel::Control, 40, None, Some(41))), "HA control cursor is older than retention window");
    assert!(ha_events_cursor_check(HaSyncChannel::Runtime, 9, Some(10), None).is_ok());
    assert_eq!(message(ha_events_cursor_check(HaSyncChannel::Runtime, 8, Some(10), None)), "HA runtime cursor is older than retention window");
}

#[test]
fn outbox_stats_report_age_and_ack_lag() {
    let stats = ha_outbox_stats(12, Some(1_000), 40, 55, 1_300);
    assert_eq!(stats.row_count, 12);
    assert_eq!(stats.oldest_age_secs, 300);
    assert_eq!(stats.ack_lag, 15);
    let empty = ha_outbox_stats(-1, None, 90, 55, 1_300);
    assert_eq!(empty.row_count, 0);
    assert_eq!(empty.oldest_age_secs, 0);
    assert_eq!(empty.ack_lag, 0);
    let future = ha_outbox_stats(1, Some(2_000), 0, i64::MAX, 1_300);
    assert_eq!(future.oldest_age_secs, 0);
    assert_eq!(future.ack_lag, i64::MAX);
    let far = ha_outbox_stats(1, Some(i64::MIN), i64::MIN, 0, 1);
    assert_eq!(far.oldest_age_secs, i64::MAX);
    assert_eq!(far.ack_lag, i64::MAX);
}
