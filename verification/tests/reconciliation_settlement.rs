use key_store::error::ProxyError;
use key_store::reconciliation::{
    reconciliation_candidate_degraded, reconciliation_quota_buckets, reconciliation_retry_buckets,
    reconciliation_subject_tables, upstream_reconciliation_settlement, upstream_usage_attempt_decision,
    ReconciliationSubjectKind, UsageBucketGranularity,
};

#[test]
fn settlement_records_the_difference_a_minute_before_the_period_end() {
    let s = upstream_reconciliation_settlement("tok_1", "2024-05", 1_700_000_000, false, 120, 100);
    assert_eq!(s.settlement_key, "v1:tok_1:2024-05");
    assert_eq!(s.delta_credits, 20);
    assert_eq!(s.attributed_at, 1_699_999_940);
    assert_eq!(s.minute_bucket, 1_699_999_920);
    assert_eq!(s.status, "settled");
    assert_eq!(s.degraded_reason, None);
}

#[test]
fn degraded_settlement_names_the_research_timeout() {
    let s = upstream_reconciliation_settlement("tok_2", "p", 120, true, 5, 9);
    assert_eq!(s.delta_credits, -4);
    assert_eq!(s.attributed_at, 60);
    assert_eq!(s.minute_bucket, 60);
    assert_eq!(s.status, "degraded");
    assert_eq!(s.degraded_reason, Some("research_timeout_24h"));
}

#[test]
fn settlement_arithmetic_saturates_and_floors_negative_instants() {
    let s = upstream_reconciliation_settlement("t", "p", -30, false, i64::MAX, -5);
    assert_eq!(s.delta_credits, i64::MAX);
    assert_eq!(s.attributed_at, -90);
    assert_eq!(s.minute_bucket, -120);
}

#[test]
fn account_and_token_subjects_name_their_tables() {
    let account = reconciliation_subject_tables("account:usr_1").unwrap();
    assert_eq!(account.kind, ReconciliationSubjectKind::Account);
    assert_eq!(account.subject_id, "usr_1");
    assert_eq!(account.usage_table, "account_usage_buckets");
    assert_eq!(account.id_column, "user_id");
    assert_eq!(account.monthly_table, "account_monthly_quota");
    assert_eq!(account.monthly_id_column, "user_id");

    let token = reconciliation_subject_tables("token:tok:with:colons").unwrap();
    assert_eq!(token.kind, ReconciliationSubjectKind::Token);
    assert_eq!(token.subject_id, "tok:with:colons");
    assert_eq!(token.usage_table, "token_usage_buckets");
    assert_eq!(token.id_column, "token_id");
    assert_eq!(token.monthly_table, "auth_token_quota");
    assert_eq!(token.monthly_id_column, "token_id");
}

#[test]
fn malformed_and_unknown_subjects_are_refused() {
    match reconciliation_subject_tables("nocolon") {
        Err(ProxyError::Other(m)) => assert_eq!(m, "invalid reconciliation billing subject"),
        _ => panic!("expected an invalid subject"),
    }
    match reconciliation_subject_tables("team:abc") {
        Err(ProxyError::Other(m)) => assert_eq!(m, "unsupported reconciliation billing subject"),
        _ => panic!("expected an unsupported subject"),
    }
}

#[test]
fn minute_bucket_only_on_the_same_local_day() {
    assert_eq!(
        reconciliation_quota_buckets(60, 0, true),
        vec![(60, UsageBucketGranularity::Minute), (0, UsageBucketGranularity::Day)]
    );
    assert_eq!(reconciliation_quota_buckets(60, 0, false), vec![(0, UsageBucketGranularity::Day)]);
}

#[test]
fn retry_buckets_total_the_waiting_settlements_by_reason_class() {
    let rows = vec![
        (Some("upstream429".to_string()), 2),
        (Some("usage http error 429 from upstream".to_string()), 3),
        (Some("local_usage_rate_limit".to_string()), 4),
        (None, 1),
        (Some("timeout".to_string()), 5),
    ];
    let b = reconciliation_retry_buckets(&rows).unwrap();
    assert_eq!((b.upstream_429, b.local_usage_rate_limit, b.other), (5, 4, 6));
    assert!(reconciliation_retry_buckets(&Vec::new()).is_some());
    let overflowing = vec![(None, i64::MAX), (Some("other".to_string()), 1)];
    assert!(reconciliation_retry_buckets(&overflowing).is_none());
}

#[test]
fn periods_with_open_research_wait_a_day_then_settle_degraded() {
    assert_eq!(reconciliation_candidate_degraded(1_000, 500, 0), Some(false));
    assert_eq!(reconciliation_candidate_degraded(1_000, 500, 2), None);
    assert_eq!(reconciliation_candidate_degraded(86_900, 500, 2), Some(true));
    assert_eq!(reconciliation_candidate_degraded(i64::MAX, i64::MAX, 1), Some(true));
}

#[test]
fn usage_reads_are_limited_to_ten_per_ten_minutes() {
    assert_eq!(upstream_usage_attempt_decision(9, 100), Ok(()));
    assert_eq!(upstream_usage_attempt_decision(10, 100), Err(700));
    assert_eq!(upstream_usage_attempt_decision(12, i64::MAX - 5), Err(i64::MAX));
}
