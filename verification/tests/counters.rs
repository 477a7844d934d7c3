use key_store::metrics::{
    add_summary_window_metrics, dashboard_hourly_window_bounds, utc_month_gap_end, utc_month_gap_plan, subtract_nonnegative, subtract_summary_window_metrics,
    summary_window_metrics_from_dashboard_counts, ApiKeyUsageBucketDelta, AuthTokenActivityDelta,
    DashboardRequestRollupCounts, SummaryQuotaCharge, SummaryWindowMetrics,
};

fn charge(local: i64) -> SummaryQuotaCharge {
    SummaryQuotaCharge {
        local_estimated_credits: local,
        upstream_actual_credits: 0,
        sampled_key_count: 0,
        stale_key_count: 0,
        latest_sync_at: None,
    }
}

fn window(base: i64) -> SummaryWindowMetrics {
    SummaryWindowMetrics {
        total_requests: base,
        success_count: base + 1,
        error_count: base + 2,
        quota_exhausted_count: base + 3,
        valuable_success_count: base + 4,
        valuable_failure_count: base + 5,
        other_success_count: base + 6,
        other_failure_count: base + 7,
        unknown_count: base + 8,
        upstream_exhausted_key_count: base + 9,
        new_keys: base + 10,
        new_quarantines: base + 11,
        quota_charge: charge(base + 12),
    }
}

#[test]
fn subtract_nonnegative_floors_at_zero() {
    assert_eq!(subtract_nonnegative(10, 3), 7);
    assert_eq!(subtract_nonnegative(3, 10), 0);
    assert_eq!(subtract_nonnegative(i64::MIN, 1), 0);
    assert_eq!(subtract_nonnegative(i64::MAX, -5), i64::MAX);
}

#[test]
fn adding_then_subtracting_gives_the_window_back() {
    let a = window(1);
    let d = window(100);
    let mut sum = a;
    add_summary_window_metrics(&mut sum, &d);
    assert_eq!(sum.total_requests, 101);
    assert_eq!(sum.quota_charge.local_estimated_credits, 13 + 112);
    let back = subtract_summary_window_metrics(&sum, &d);
    assert_eq!(back.total_requests, a.total_requests);
    assert_eq!(back.new_quarantines, a.new_quarantines);
    assert_eq!(back.quota_charge.local_estimated_credits, a.quota_charge.local_estimated_credits);
    let floored = subtract_summary_window_metrics(&a, &d);
    assert_eq!(floored.unknown_count, 0);
}

fn counts(v: i64) -> DashboardRequestRollupCounts {
    DashboardRequestRollupCounts {
        total_requests: v,
        success_count: v,
        error_count: v,
        quota_exhausted_count: v,
        valuable_success_count: v,
        valuable_failure_count: v,
        valuable_failure_429_count: v,
        other_success_count: v,
        other_failure_count: v,
        unknown_count: v,
        mcp_non_billable: v,
        mcp_billable: v,
        api_non_billable: v,
        api_billable: v,
        local_estimated_credits: v,
    }
}

#[test]
fn dashboard_counts_add_and_convert() {
    let mut c = DashboardRequestRollupCounts::default();
    c.add(counts(2));
    c.add(counts(3));
    assert_eq!(c.total_requests, 5);
    assert_eq!(c.api_billable, 5);
    let w = summary_window_metrics_from_dashboard_counts(c);
    assert_eq!(w.total_requests, 5);
    assert_eq!(w.upstream_exhausted_key_count, 0);
    assert_eq!(w.new_keys, 0);
    assert_eq!(w.quota_charge.local_estimated_credits, 5);
    assert_eq!(w.quota_charge.latest_sync_at, None);
}

#[test]
fn usage_deltas_add_and_detect_zero() {
    let mut d = ApiKeyUsageBucketDelta::default();
    assert!(d.is_zero());
    let one = ApiKeyUsageBucketDelta {
        total_requests: 1,
        success_count: 1,
        error_count: 0,
        quota_exhausted_count: 0,
        valuable_success_count: 0,
        valuable_failure_count: 0,
        other_success_count: 0,
        other_failure_count: 0,
        unknown_count: 0,
    };
    d.add(one);
    d.add(one);
    assert_eq!(d.total_requests, 2);
    assert_eq!(d.success_count, 2);
    assert!(!d.is_zero());
}

#[test]
fn token_activity_keeps_the_latest_use() {
    let mut a = AuthTokenActivityDelta::default();
    assert!(a.is_zero());
    a.add_request(100);
    a.add_request(50);
    assert_eq!(a.total_requests_delta, 2);
    assert_eq!(a.last_used_at, Some(100));
    let mut b = AuthTokenActivityDelta { total_requests_delta: 3, last_used_at: Some(200) };
    b.add(a);
    assert_eq!(b.total_requests_delta, 5);
    assert_eq!(b.last_used_at, Some(200));
    let mut c = a;
    c.add(AuthTokenActivityDelta { total_requests_delta: 3, last_used_at: Some(200) });
    assert_eq!(c.total_requests_delta, b.total_requests_delta);
    assert_eq!(c.last_used_at, b.last_used_at);
    let mut z = a;
    z.add(AuthTokenActivityDelta::default());
    assert_eq!(z.total_requests_delta, a.total_requests_delta);
    assert_eq!(z.last_used_at, a.last_used_at);
}

#[test]
fn hourly_chart_bounds() {
    let b = dashboard_hourly_window_bounds(7_200, 3_600, 24, 48).unwrap();
    assert_eq!(b.series_start, 7_200 - 47 * 3_600);
    assert_eq!(b.range_end, 10_800);
    assert_eq!(b.hour_alignment_offset, 0);
    let b = dashboard_hourly_window_bounds(-100, 3_600, 1, 1).unwrap();
    assert_eq!(b.series_start, -100);
    assert_eq!(b.hour_alignment_offset, 3_500);
    let b = dashboard_hourly_window_bounds(i64::MAX - 10, 3_600, 1, i64::MAX).unwrap();
    assert_eq!(b.series_start, -10);
    assert_eq!(b.range_end, i64::MAX);
    assert!(dashboard_hourly_window_bounds(0, 0, 1, 1).is_none());
    assert!(dashboard_hourly_window_bounds(0, 60, 0, 1).is_none());
    assert!(dashboard_hourly_window_bounds(0, 60, 1, -1).is_none());
}

#[test]
fn month_gaps_end_at_the_first_kept_log() {
    assert_eq!(utc_month_gap_end(100, Some(500), 900), Some(500));
    assert_eq!(utc_month_gap_end(100, Some(100), 900), None);
    assert_eq!(utc_month_gap_end(100, None, 900), Some(900));
    assert_eq!(utc_month_gap_end(100, None, 50), None);
}

#[test]
fn month_gaps_split_into_whole_days_and_the_last_day() {
    let p = utc_month_gap_plan(0, 250_000, 0, 86_400, 172_800, 259_200);
    assert_eq!(p.full_days, Some((0, 172_800)));
    assert_eq!(p.partial_day, Some((172_800, 259_200)));
    let p = utc_month_gap_plan(3_600, 172_800, 0, 86_400, 172_800, 259_200);
    assert_eq!(p.full_days, Some((86_400, 172_800)));
    assert_eq!(p.partial_day, None);
    let p = utc_month_gap_plan(3_600, 7_200, 0, 86_400, 0, 86_400);
    assert_eq!(p.full_days, None);
    assert_eq!(p.partial_day, None);
}
