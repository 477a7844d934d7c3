use key_store::alerts::model::TokenRequestKind;
use key_store::error::ProxyError;
use key_store::migration::{
    backfill_reported_cursor, backfill_scan_cursor,
    plan_request_log_backfill_batch, plan_request_user_id_backfill, plan_token_log_backfill_batch,
    RequestKindBackfillRequestLogRow, RequestKindBackfillTokenLogRow,
};
use key_store::quota_charge::summary_probe_times;
use key_store::recharge::{recharge_entitlement_monthly_deltas, recharge_payment_action, RechargePaymentAction};
use key_store::sidecar::{
    observability_sidecar_migration_plan, sidecar_attached_observability_path, sidecar_migration_completed,
    sidecar_migration_outcome, LegacyObservabilityTables,
};

fn log_row(id: i64, key: Option<&str>, label: Option<&str>) -> RequestKindBackfillRequestLogRow {
    RequestKindBackfillRequestLogRow {
        id,
        path: "/api/search".to_string(),
        request_body: None,
        request_kind_key: key.map(str::to_string),
        request_kind_label: label.map(str::to_string),
        request_kind_detail: None,
    }
}

#[test]
fn request_log_batches_update_only_stale_rows() {
    let rows = vec![log_row(3, Some("api:search"), Some("Search")), log_row(5, None, None), log_row(8, Some("x"), Some("X"))];
    let kinds = vec![
        TokenRequestKind::new("api:search", "Search", None),
        TokenRequestKind::new("api:search", "Search", None),
        TokenRequestKind::new("api:extract", "Extract", Some("d".to_string())),
    ];
    let plan = plan_request_log_backfill_batch(&rows, &kinds, 1);
    assert_eq!(plan.batch_max_id, 8);
    assert_eq!(plan.updates.len(), 2);
    assert_eq!(plan.updates[0].id, 5);
    assert_eq!(plan.updates[1].id, 8);
    assert_eq!(plan.updates[1].request_kind_key, "api:extract");
    assert_eq!(plan.updates[1].request_kind_detail, Some("d".to_string()));
    let empty = plan_request_log_backfill_batch(&Vec::new(), &Vec::new(), 42);
    assert_eq!(empty.batch_max_id, 42);
    assert!(empty.updates.is_empty());
}

#[test]
fn token_log_batches_move_the_cursor_to_the_last_row() {
    let rows = vec![RequestKindBackfillTokenLogRow {
        id: 77,
        method: "POST".to_string(),
        path: "/mcp".to_string(),
        query: None,
        request_kind_key: Some("mcp:batch".to_string()),
        request_kind_label: Some("MCP batch".to_string()),
        request_kind_detail: None,
    }];
    let kinds = vec![TokenRequestKind::new("mcp:batch", "MCP batch", None)];
    let plan = plan_token_log_backfill_batch(&rows, &kinds, 10);
    assert_eq!(plan.batch_max_id, 77);
    assert!(plan.updates.is_empty());
}

#[test]
fn user_id_backfill_writes_known_users() {
    let rows = vec![(4, Some("u1".to_string())), (6, None), (9, Some("u2".to_string()))];
    let (cursor, writes) = plan_request_user_id_backfill(&rows, 2);
    assert_eq!(cursor, 9);
    assert_eq!(writes, vec![(4, "u1".to_string()), (9, "u2".to_string())]);
    let (cursor, writes) = plan_request_user_id_backfill(&vec![(1, None)], 5);
    assert_eq!(cursor, 5);
    assert!(writes.is_empty());
}

#[test]
fn sidecar_migration_plans() {
    let legacy = LegacyObservabilityTables {
        request_logs: true,
        api_key_usage_buckets: false,
        dashboard_request_rollup_buckets: true,
        request_log_catalog_rollups: false,
    };
    match observability_sidecar_migration_plan(0, false, legacy, 0) {
        Err(ProxyError::Other(m)) => assert_eq!(m, "observability sidecar migration requires batch_size > 0"),
        _ => panic!("expected an error"),
    }
    let plan = observability_sidecar_migration_plan(500, false, legacy, 10).ok().expect("a plan");
    assert!(plan.resumed_copy);
    assert!(!plan.already_migrated);
    assert!(plan.copy_request_logs);
    assert!(!plan.drop_api_key_usage_buckets);
    assert!(plan.drop_dashboard_request_rollup_buckets);
    assert!(plan.check_child_references);
    let dry = observability_sidecar_migration_plan(500, true, legacy, 10).ok().expect("a plan");
    assert!(!dry.copy_request_logs && !dry.drop_dashboard_request_rollup_buckets && !dry.check_child_references);
    let none = LegacyObservabilityTables {
        request_logs: false,
        api_key_usage_buckets: false,
        dashboard_request_rollup_buckets: false,
        request_log_catalog_rollups: false,
    };
    assert!(observability_sidecar_migration_plan(1, false, none, 0).ok().expect("a plan").already_migrated);
}

#[test]
fn recharge_payments() {
    assert_eq!(recharge_payment_action(true, false, 100, 200), RechargePaymentAction::RecordNotificationOnly);
    assert_eq!(recharge_payment_action(false, true, 100, 200), RechargePaymentAction::ExpireForMonthMismatch);
    assert_eq!(recharge_payment_action(false, false, 100, 200), RechargePaymentAction::MarkPaid { start_month: 100 });
    assert_eq!(recharge_payment_action(false, true, 0, 200), RechargePaymentAction::MarkPaid { start_month: 200 });
    assert_eq!(recharge_entitlement_monthly_deltas(3, &vec![7, 8], 5), vec![7, 8, 5]);
    assert!(recharge_entitlement_monthly_deltas(0, &vec![7], 5).is_empty());
    assert!(recharge_entitlement_monthly_deltas(-2, &vec![7], 5).is_empty());
}

#[test]
fn summary_probe_thresholds() {
    assert_eq!(summary_probe_times(1_000, 500, 100_000), (500, 99_999 - 7_200, 99_999 - 900, 99_999 - 86_400));
    assert_eq!(summary_probe_times(i64::MIN, 0, i64::MIN), (i64::MIN, i64::MIN, i64::MIN, i64::MIN));
}

#[test]
fn sidecar_report_completion() {
    let legacy = LegacyObservabilityTables {
        request_logs: true,
        api_key_usage_buckets: false,
        dashboard_request_rollup_buckets: true,
        request_log_catalog_rollups: false,
    };
    let plan = observability_sidecar_migration_plan(100, false, legacy, 0).unwrap();
    let outcome = sidecar_migration_outcome(&plan);
    assert!(outcome.dropped_main_request_logs);
    assert!(!outcome.dropped_legacy_api_key_usage_buckets);
    assert!(outcome.reset_dashboard_request_rollup_buckets_meta);
    assert!(outcome.child_reference_checks_passed);
    assert!(sidecar_migration_completed(false, legacy, &outcome));
    let mut partial = outcome;
    partial.dropped_legacy_dashboard_request_rollup_buckets = false;
    assert!(!sidecar_migration_completed(false, legacy, &partial));

    let dry = observability_sidecar_migration_plan(100, true, legacy, 0).unwrap();
    let dry_outcome = sidecar_migration_outcome(&dry);
    assert!(!dry_outcome.dropped_main_request_logs);
    assert!(!sidecar_migration_completed(true, legacy, &dry_outcome));

    assert_eq!(
        sidecar_attached_observability_path(true, None, "side.db".to_string(), None, "core.db".to_string()),
        "side.db"
    );
    assert_eq!(
        sidecar_attached_observability_path(false, Some("x.db".to_string()), "side.db".to_string(), None, "core.db".to_string()),
        "core.db"
    );
}

#[test]
fn backfill_cursors() {
    assert_eq!(backfill_scan_cursor(false, 10, 20), 20);
    assert_eq!(backfill_scan_cursor(true, 10, 20), 20);
    assert_eq!(backfill_scan_cursor(true, 10, 5), 10);
    assert_eq!(backfill_reported_cursor(true, 10, 20), 10);
    assert_eq!(backfill_reported_cursor(false, 10, 20), 20);
}
