//! Request counters: summary-window metrics, dashboard roll-up counts, key
//! usage deltas and token activity deltas, and how they add up.

use vstd::prelude::*;
use crate::num::{max_i, sat_add, sat_mul, sat_sub, saturating_add_i64, saturating_mul_i64, saturating_sub_i64};

verus! {

/// Whether a value fits in `i64`.
pub open spec fn fits(v: int) -> bool {
    i64::MIN <= v <= i64::MAX
}

/// The quota charged within a summary window: the credits estimated
/// locally, the credits the upstream quota syncs show as spent, how many keys
/// were sampled and how many are stale, and the latest sync.
#[derive(Clone, Copy, Debug)]
pub struct SummaryQuotaCharge {
    pub local_estimated_credits: i64,
    pub upstream_actual_credits: i64,
    pub sampled_key_count: i64,
    pub stale_key_count: i64,
    pub latest_sync_at: Option<i64>,
}

/// A charge with only the locally estimated credits set.
pub open spec fn local_charge(credits: i64) -> SummaryQuotaCharge {
    SummaryQuotaCharge {
        local_estimated_credits: credits,
        upstream_actual_credits: 0,
        sampled_key_count: 0,
        stale_key_count: 0,
        latest_sync_at: None,
    }
}

/// The request counts of a summary window.
#[derive(Clone, Copy, Debug)]
pub struct SummaryWindowMetrics {
    pub total_requests: i64,
    pub success_count: i64,
    pub error_count: i64,
    pub quota_exhausted_count: i64,
    pub valuable_success_count: i64,
    pub valuable_failure_count: i64,
    pub other_success_count: i64,
    pub other_failure_count: i64,
    pub unknown_count: i64,
    pub upstream_exhausted_key_count: i64,
    pub new_keys: i64,
    pub new_quarantines: i64,
    pub quota_charge: SummaryQuotaCharge,
}

/// The counters of one dashboard roll-up bucket.
#[derive(Clone, Copy, Debug)]
pub struct DashboardRequestRollupCounts {
    pub total_requests: i64,
    pub success_count: i64,
    pub error_count: i64,
    pub quota_exhausted_count: i64,
    pub valuable_success_count: i64,
    pub valuable_failure_count: i64,
    pub valuable_failure_429_count: i64,
    pub other_success_count: i64,
    pub other_failure_count: i64,
    pub unknown_count: i64,
    pub mcp_non_billable: i64,
    pub mcp_billable: i64,
    pub api_non_billable: i64,
    pub api_billable: i64,
    pub local_estimated_credits: i64,
}

/// The counters added to one key's usage bucket.
#[derive(Clone, Copy, Debug)]
pub struct ApiKeyUsageBucketDelta {
    pub total_requests: i64,
    pub success_count: i64,
    pub error_count: i64,
    pub quota_exhausted_count: i64,
    pub valuable_success_count: i64,
    pub valuable_failure_count: i64,
    pub other_success_count: i64,
    pub other_failure_count: i64,
    pub unknown_count: i64,
}

/// What happened to a token since its last flush: how many requests it
/// served and when it was last used.
#[derive(Clone, Copy, Debug)]
pub struct AuthTokenActivityDelta {
    pub total_requests_delta: i64,
    pub last_used_at: Option<i64>,
}

/// Whether every counter of `a + b` fits in `i64`.
pub open spec fn summary_add_fits(a: SummaryWindowMetrics, b: SummaryWindowMetrics) -> bool {
    &&& fits(a.total_requests + b.total_requests)
    &&& fits(a.success_count + b.success_count)
    &&& fits(a.error_count + b.error_count)
    &&& fits(a.quota_exhausted_count + b.quota_exhausted_count)
    &&& fits(a.valuable_success_count + b.valuable_success_count)
    &&& fits(a.valuable_failure_count + b.valuable_failure_count)
    &&& fits(a.other_success_count + b.other_success_count)
    &&& fits(a.other_failure_count + b.other_failure_count)
    &&& fits(a.unknown_count + b.unknown_count)
    &&& fits(a.upstream_exhausted_key_count + b.upstream_exhausted_key_count)
    &&& fits(a.new_keys + b.new_keys)
    &&& fits(a.new_quarantines + b.new_quarantines)
    &&& fits(a.quota_charge.local_estimated_credits + b.quota_charge.local_estimated_credits)
}

/// `a + b`, counter by counter.
pub open spec fn summary_sum(a: SummaryWindowMetrics, b: SummaryWindowMetrics) -> SummaryWindowMetrics {
    SummaryWindowMetrics {
        total_requests: (a.total_requests + b.total_requests) as i64,
        success_count: (a.success_count + b.success_count) as i64,
        error_count: (a.error_count + b.error_count) as i64,
        quota_exhausted_count: (a.quota_exhausted_count + b.quota_exhausted_count) as i64,
        valuable_success_count: (a.valuable_success_count + b.valuable_success_count) as i64,
        valuable_failure_count: (a.valuable_failure_count + b.valuable_failure_count) as i64,
        other_success_count: (a.other_success_count + b.other_success_count) as i64,
        other_failure_count: (a.other_failure_count + b.other_failure_count) as i64,
        unknown_count: (a.unknown_count + b.unknown_count) as i64,
        upstream_exhausted_key_count: (a.upstream_exhausted_key_count + b.upstream_exhausted_key_count) as i64,
        new_keys: (a.new_keys + b.new_keys) as i64,
        new_quarantines: (a.new_quarantines + b.new_quarantines) as i64,
        quota_charge: SummaryQuotaCharge {
            local_estimated_credits: (a.quota_charge.local_estimated_credits + b.quota_charge.local_estimated_credits) as i64,
            ..a.quota_charge
        },
    }
}

/// `max(total - subtract, 0)`, the difference saturating at `i64`'s bounds.
pub open spec fn sub_nonneg(total: i64, subtract: i64) -> i64 {
    max_i(sat_sub(total as int, subtract as int), 0) as i64
}

/// `total - subtract`, counter by counter, no counter below zero.
pub open spec fn summary_difference(t: SummaryWindowMetrics, s: SummaryWindowMetrics) -> SummaryWindowMetrics {
    SummaryWindowMetrics {
        total_requests: sub_nonneg(t.total_requests, s.total_requests),
        success_count: sub_nonneg(t.success_count, s.success_count),
        error_count: sub_nonneg(t.error_count, s.error_count),
        quota_exhausted_count: sub_nonneg(t.quota_exhausted_count, s.quota_exhausted_count),
        valuable_success_count: sub_nonneg(t.valuable_success_count, s.valuable_success_count),
        valuable_failure_count: sub_nonneg(t.valuable_failure_count, s.valuable_failure_count),
        other_success_count: sub_nonneg(t.other_success_count, s.other_success_count),
        other_failure_count: sub_nonneg(t.other_failure_count, s.other_failure_count),
        unknown_count: sub_nonneg(t.unknown_count, s.unknown_count),
        upstream_exhausted_key_count: sub_nonneg(t.upstream_exhausted_key_count, s.upstream_exhausted_key_count),
        new_keys: sub_nonneg(t.new_keys, s.new_keys),
        new_quarantines: sub_nonneg(t.new_quarantines, s.new_quarantines),
        quota_charge: local_charge(sub_nonneg(t.quota_charge.local_estimated_credits, s.quota_charge.local_estimated_credits)),
    }
}

/// Whether no counter is negative.
pub open spec fn summary_nonnegative(m: SummaryWindowMetrics) -> bool {
    &&& m.total_requests >= 0
    &&& m.success_count >= 0
    &&& m.error_count >= 0
    &&& m.quota_exhausted_count >= 0
    &&& m.valuable_success_count >= 0
    &&& m.valuable_failure_count >= 0
    &&& m.other_success_count >= 0
    &&& m.other_failure_count >= 0
    &&& m.unknown_count >= 0
    &&& m.upstream_exhausted_key_count >= 0
    &&& m.new_keys >= 0
    &&& m.new_quarantines >= 0
    &&& m.quota_charge.local_estimated_credits >= 0
}

/// The summary metrics a dashboard roll-up gives: its request counters and
/// credits, with no key, quarantine or exhaustion counts.
pub open spec fn summary_of_counts(c: DashboardRequestRollupCounts) -> SummaryWindowMetrics {
    SummaryWindowMetrics {
        total_requests: c.total_requests,
        success_count: c.success_count,
        error_count: c.error_count,
        quota_exhausted_count: c.quota_exhausted_count,
        valuable_success_count: c.valuable_success_count,
        valuable_failure_count: c.valuable_failure_count,
        other_success_count: c.other_success_count,
        other_failure_count: c.other_failure_count,
        unknown_count: c.unknown_count,
        upstream_exhausted_key_count: 0,
        new_keys: 0,
        new_quarantines: 0,
        quota_charge: local_charge(c.local_estimated_credits),
    }
}

/// Adds `delta` to `target`, counter by counter.
pub fn add_summary_window_metrics(target: &mut SummaryWindowMetrics, delta: &SummaryWindowMetrics)
    requires
        summary_add_fits(*old(target), *delta),
    ensures
        *final(target) == summary_sum(*old(target), *delta),
{
    target.total_requests = target.total_requests + delta.total_requests;
    target.success_count = target.success_count + delta.success_count;
    target.error_count = target.error_count + delta.error_count;
    target.quota_exhausted_count = target.quota_exhausted_count + delta.quota_exhausted_count;
    target.valuable_success_count = target.valuable_success_count + delta.valuable_success_count;
    target.valuable_failure_count = target.valuable_failure_count + delta.valuable_failure_count;
    target.other_success_count = target.other_success_count + delta.other_success_count;
    target.other_failure_count = target.other_failure_count + delta.other_failure_count;
    target.unknown_count = target.unknown_count + delta.unknown_count;
    target.upstream_exhausted_key_count = target.upstream_exhausted_key_count + delta.upstream_exhausted_key_count;
    target.new_keys = target.new_keys + delta.new_keys;
    target.new_quarantines = target.new_quarantines + delta.new_quarantines;
    target.quota_charge.local_estimated_credits =
        target.quota_charge.local_estimated_credits + delta.quota_charge.local_estimated_credits;
}

/// The summary metrics of a dashboard roll-up.
pub fn summary_window_metrics_from_dashboard_counts(counts: DashboardRequestRollupCounts) -> (r: SummaryWindowMetrics)
    ensures
        r == summary_of_counts(counts),
{
    SummaryWindowMetrics {
        total_requests: counts.total_requests,
        success_count: counts.success_count,
        error_count: counts.error_count,
        quota_exhausted_count: counts.quota_exhausted_count,
        valuable_success_count: counts.valuable_success_count,
        valuable_failure_count: counts.valuable_failure_count,
        other_success_count: counts.other_success_count,
        other_failure_count: counts.other_failure_count,
        unknown_count: counts.unknown_count,
        upstream_exhausted_key_count: 0,
        new_keys: 0,
        new_quarantines: 0,
        quota_charge: SummaryQuotaCharge {
            local_estimated_credits: counts.local_estimated_credits,
            upstream_actual_credits: 0,
            sampled_key_count: 0,
            stale_key_count: 0,
            latest_sync_at: None,
        },
    }
}

/// `total - subtract`, saturating, and never below zero.
pub fn subtract_nonnegative(total: i64, subtract: i64) -> (r: i64)
    ensures
        r == sub_nonneg(total, subtract),
        r >= 0,
{
    let d = saturating_sub_i64(total, subtract);
    if d >= 0 { d } else { 0 }
}

/// `total - subtract`, counter by counter, no counter below zero.
pub fn subtract_summary_window_metrics(total: &SummaryWindowMetrics, subtract: &SummaryWindowMetrics) -> (r: SummaryWindowMetrics)
    ensures
        r == summary_difference(*total, *subtract),
        summary_nonnegative(r),
{
    SummaryWindowMetrics {
        total_requests: subtract_nonnegative(total.total_requests, subtract.total_requests),
        success_count: subtract_nonnegative(total.success_count, subtract.success_count),
        error_count: subtract_nonnegative(total.error_count, subtract.error_count),
        quota_exhausted_count: subtract_nonnegative(total.quota_exhausted_count, subtract.quota_exhausted_count),
        valuable_success_count: subtract_nonnegative(total.valuable_success_count, subtract.valuable_success_count),
        valuable_failure_count: subtract_nonnegative(total.valuable_failure_count, subtract.valuable_failure_count),
        other_success_count: subtract_nonnegative(total.other_success_count, subtract.other_success_count),
        other_failure_count: subtract_nonnegative(total.other_failure_count, subtract.other_failure_count),
        unknown_count: subtract_nonnegative(total.unknown_count, subtract.unknown_count),
        upstream_exhausted_key_count: subtract_nonnegative(
            total.upstream_exhausted_key_count,
            subtract.upstream_exhausted_key_count,
        ),
        new_keys: subtract_nonnegative(total.new_keys, subtract.new_keys),
        new_quarantines: subtract_nonnegative(total.new_quarantines, subtract.new_quarantines),
        quota_charge: SummaryQuotaCharge {
            local_estimated_credits: subtract_nonnegative(
                total.quota_charge.local_estimated_credits,
                subtract.quota_charge.local_estimated_credits,
            ),
            upstream_actual_credits: 0,
            sampled_key_count: 0,
            stale_key_count: 0,
            latest_sync_at: None,
        },
    }
}

/// Subtracting what was added gives back a window whose counters are not
/// negative: `(a + d) - d == a` (for a window whose charge holds only local
/// credits, which is all that subtraction keeps).
pub proof fn lemma_subtract_undoes_add(a: SummaryWindowMetrics, d: SummaryWindowMetrics)
    requires
        summary_add_fits(a, d),
        summary_nonnegative(a),
        a.quota_charge == local_charge(a.quota_charge.local_estimated_credits),
    ensures
        summary_difference(summary_sum(a, d), d) == a,
{
}

/// Subtracting an all-zero window leaves a non-negative window (whose charge
/// holds only local credits) as it is.
pub proof fn lemma_subtract_zero(a: SummaryWindowMetrics)
    requires
        summary_nonnegative(a),
        a.quota_charge == local_charge(a.quota_charge.local_estimated_credits),
    ensures
        summary_difference(a, summary_of_counts(zero_counts())) == a,
{
}

/// Whether every counter of `a + b` fits in `i64`.
pub open spec fn counts_add_fits(a: DashboardRequestRollupCounts, b: DashboardRequestRollupCounts) -> bool {
    &&& fits(a.total_requests + b.total_requests)
    &&& fits(a.success_count + b.success_count)
    &&& fits(a.error_count + b.error_count)
    &&& fits(a.quota_exhausted_count + b.quota_exhausted_count)
    &&& fits(a.valuable_success_count + b.valuable_success_count)
    &&& fits(a.valuable_failure_count + b.valuable_failure_count)
    &&& fits(a.valuable_failure_429_count + b.valuable_failure_429_count)
    &&& fits(a.other_success_count + b.other_success_count)
    &&& fits(a.other_failure_count + b.other_failure_count)
    &&& fits(a.unknown_count + b.unknown_count)
    &&& fits(a.mcp_non_billable + b.mcp_non_billable)
    &&& fits(a.mcp_billable + b.mcp_billable)
    &&& fits(a.api_non_billable + b.api_non_billable)
    &&& fits(a.api_billable + b.api_billable)
    &&& fits(a.local_estimated_credits + b.local_estimated_credits)
}

/// `a + b`, counter by counter.
pub open spec fn counts_sum(a: DashboardRequestRollupCounts, b: DashboardRequestRollupCounts) -> DashboardRequestRollupCounts {
    DashboardRequestRollupCounts {
        total_requests: (a.total_requests + b.total_requests) as i64,
        success_count: (a.success_count + b.success_count) as i64,
        error_count: (a.error_count + b.error_count) as i64,
        quota_exhausted_count: (a.quota_exhausted_count + b.quota_exhausted_count) as i64,
        valuable_success_count: (a.valuable_success_count + b.valuable_success_count) as i64,
        valuable_failure_count: (a.valuable_failure_count + b.valuable_failure_count) as i64,
        valuable_failure_429_count: (a.valuable_failure_429_count + b.valuable_failure_429_count) as i64,
        other_success_count: (a.other_success_count + b.other_success_count) as i64,
        other_failure_count: (a.other_failure_count + b.other_failure_count) as i64,
        unknown_count: (a.unknown_count + b.unknown_count) as i64,
        mcp_non_billable: (a.mcp_non_billable + b.mcp_non_billable) as i64,
        mcp_billable: (a.mcp_billable + b.mcp_billable) as i64,
        api_non_billable: (a.api_non_billable + b.api_non_billable) as i64,
        api_billable: (a.api_billable + b.api_billable) as i64,
        local_estimated_credits: (a.local_estimated_credits + b.local_estimated_credits) as i64,
    }
}

/// A roll-up with every counter at zero.
pub open spec fn zero_counts() -> DashboardRequestRollupCounts {
    DashboardRequestRollupCounts {
        total_requests: 0,
        success_count: 0,
        error_count: 0,
        quota_exhausted_count: 0,
        valuable_success_count: 0,
        valuable_failure_count: 0,
        valuable_failure_429_count: 0,
        other_success_count: 0,
        other_failure_count: 0,
        unknown_count: 0,
        mcp_non_billable: 0,
        mcp_billable: 0,
        api_non_billable: 0,
        api_billable: 0,
        local_estimated_credits: 0,
    }
}

impl Default for DashboardRequestRollupCounts {
    fn default() -> (r: DashboardRequestRollupCounts)
        ensures
            r == zero_counts(),
    {
        DashboardRequestRollupCounts {
            total_requests: 0,
            success_count: 0,
            error_count: 0,
            quota_exhausted_count: 0,
            valuable_success_count: 0,
            valuable_failure_count: 0,
            valuable_failure_429_count: 0,
            other_success_count: 0,
            other_failure_count: 0,
            unknown_count: 0,
            mcp_non_billable: 0,
            mcp_billable: 0,
            api_non_billable: 0,
            api_billable: 0,
            local_estimated_credits: 0,
        }
    }
}

impl DashboardRequestRollupCounts {
    /// Adds `delta` to these counters.
    pub fn add(&mut self, delta: DashboardRequestRollupCounts)
        requires
            counts_add_fits(*old(self), delta),
        ensures
            *final(self) == counts_sum(*old(self), delta),
    {
        self.total_requests = self.total_requests + delta.total_requests;
        self.success_count = self.success_count + delta.success_count;
        self.error_count = self.error_count + delta.error_count;
        self.quota_exhausted_count = self.quota_exhausted_count + delta.quota_exhausted_count;
        self.valuable_success_count = self.valuable_success_count + delta.valuable_success_count;
        self.valuable_failure_count = self.valuable_failure_count + delta.valuable_failure_count;
        self.valuable_failure_429_count = self.valuable_failure_429_count + delta.valuable_failure_429_count;
        self.other_success_count = self.other_success_count + delta.other_success_count;
        self.other_failure_count = self.other_failure_count + delta.other_failure_count;
        self.unknown_count = self.unknown_count + delta.unknown_count;
        self.mcp_non_billable = self.mcp_non_billable + delta.mcp_non_billable;
        self.mcp_billable = self.mcp_billable + delta.mcp_billable;
        self.api_non_billable = self.api_non_billable + delta.api_non_billable;
        self.api_billable = self.api_billable + delta.api_billable;
        self.local_estimated_credits = self.local_estimated_credits + delta.local_estimated_credits;
    }
}

/// Adding roll-ups does not depend on their order: `a + b == b + a`.
pub proof fn lemma_counts_sum_commutes(a: DashboardRequestRollupCounts, b: DashboardRequestRollupCounts)
    requires
        counts_add_fits(a, b),
    ensures
        counts_add_fits(b, a),
        counts_sum(a, b) == counts_sum(b, a),
{
}

/// Adding a zero roll-up changes nothing.
pub proof fn lemma_counts_sum_zero(a: DashboardRequestRollupCounts)
    ensures
        counts_add_fits(a, zero_counts()),
        counts_sum(a, zero_counts()) == a,
{
}

/// Whether every counter of `a + b` fits in `i64`.
pub open spec fn usage_add_fits(a: ApiKeyUsageBucketDelta, b: ApiKeyUsageBucketDelta) -> bool {
    &&& fits(a.total_requests + b.total_requests)
    &&& fits(a.success_count + b.success_count)
    &&& fits(a.error_count + b.error_count)
    &&& fits(a.quota_exhausted_count + b.quota_exhausted_count)
    &&& fits(a.valuable_success_count + b.valuable_success_count)
    &&& fits(a.valuable_failure_count + b.valuable_failure_count)
    &&& fits(a.other_success_count + b.other_success_count)
    &&& fits(a.other_failure_count + b.other_failure_count)
    &&& fits(a.unknown_count + b.unknown_count)
}

/// `a + b`, counter by counter.
pub open spec fn usage_sum(a: ApiKeyUsageBucketDelta, b: ApiKeyUsageBucketDelta) -> ApiKeyUsageBucketDelta {
    ApiKeyUsageBucketDelta {
        total_requests: (a.total_requests + b.total_requests) as i64,
        success_count: (a.success_count + b.success_count) as i64,
        error_count: (a.error_count + b.error_count) as i64,
        quota_exhausted_count: (a.quota_exhausted_count + b.quota_exhausted_count) as i64,
        valuable_success_count: (a.valuable_success_count + b.valuable_success_count) as i64,
        valuable_failure_count: (a.valuable_failure_count + b.valuable_failure_count) as i64,
        other_success_count: (a.other_success_count + b.other_success_count) as i64,
        other_failure_count: (a.other_failure_count + b.other_failure_count) as i64,
        unknown_count: (a.unknown_count + b.unknown_count) as i64,
    }
}

/// Whether every counter is zero.
pub open spec fn usage_is_zero(d: ApiKeyUsageBucketDelta) -> bool {
    &&& d.total_requests == 0
    &&& d.success_count == 0
    &&& d.error_count == 0
    &&& d.quota_exhausted_count == 0
    &&& d.valuable_success_count == 0
    &&& d.valuable_failure_count == 0
    &&& d.other_success_count == 0
    &&& d.other_failure_count == 0
    &&& d.unknown_count == 0
}

impl Default for ApiKeyUsageBucketDelta {
    fn default() -> (r: ApiKeyUsageBucketDelta)
        ensures
            usage_is_zero(r),
    {
        ApiKeyUsageBucketDelta {
            total_requests: 0,
            success_count: 0,
            error_count: 0,
            quota_exhausted_count: 0,
            valuable_success_count: 0,
            valuable_failure_count: 0,
            other_success_count: 0,
            other_failure_count: 0,
            unknown_count: 0,
        }
    }
}

impl ApiKeyUsageBucketDelta {
    /// Adds `other` to these counters.
    pub fn add(&mut self, other: ApiKeyUsageBucketDelta)
        requires
            usage_add_fits(*old(self), other),
        ensures
            *final(self) == usage_sum(*old(self), other),
    {
        self.total_requests = self.total_requests + other.total_requests;
        self.success_count = self.success_count + other.success_count;
        self.error_count = self.error_count + other.error_count;
        self.quota_exhausted_count = self.quota_exhausted_count + other.quota_exhausted_count;
        self.valuable_success_count = self.valuable_success_count + other.valuable_success_count;
        self.valuable_failure_count = self.valuable_failure_count + other.valuable_failure_count;
        self.other_success_count = self.other_success_count + other.other_success_count;
        self.other_failure_count = self.other_failure_count + other.other_failure_count;
        self.unknown_count = self.unknown_count + other.unknown_count;
    }

    /// Whether every counter is zero.
    pub fn is_zero(&self) -> (r: bool)
        ensures
            r == usage_is_zero(*self),
    {
        self.total_requests == 0
            && self.success_count == 0
            && self.error_count == 0
            && self.quota_exhausted_count == 0
            && self.valuable_success_count == 0
            && self.valuable_failure_count == 0
            && self.other_success_count == 0
            && self.other_failure_count == 0
            && self.unknown_count == 0
    }
}

/// The later of two optional times.
pub open spec fn later(a: Option<i64>, b: Option<i64>) -> Option<i64> {
    match (a, b) {
        (Some(x), Some(y)) => Some(if x >= y { x } else { y }),
        (Some(x), None) => Some(x),
        (None, y) => y,
    }
}

/// `a` and `b` together: their request counts added, the later last use kept.
pub open spec fn activity_sum(a: AuthTokenActivityDelta, b: AuthTokenActivityDelta) -> AuthTokenActivityDelta {
    AuthTokenActivityDelta {
        total_requests_delta: (a.total_requests_delta + b.total_requests_delta) as i64,
        last_used_at: later(a.last_used_at, b.last_used_at),
    }
}

/// Whether a delta records nothing.
pub open spec fn activity_is_zero(d: AuthTokenActivityDelta) -> bool {
    d.total_requests_delta == 0 && d.last_used_at is None
}

impl Default for AuthTokenActivityDelta {
    fn default() -> (r: AuthTokenActivityDelta)
        ensures
            activity_is_zero(r),
    {
        AuthTokenActivityDelta { total_requests_delta: 0, last_used_at: None }
    }
}

impl AuthTokenActivityDelta {
    /// Records one request made at `created_at`.
    pub fn add_request(&mut self, created_at: i64)
        requires
            old(self).total_requests_delta < i64::MAX,
        ensures
            *final(self) == activity_sum(*old(self), AuthTokenActivityDelta { total_requests_delta: 1, last_used_at: Some(created_at) }),
    {
        self.total_requests_delta = self.total_requests_delta + 1;
        self.last_used_at = Some(match self.last_used_at {
            Some(current) => if current >= created_at { current } else { created_at },
            None => created_at,
        });
    }

    /// Adds `other` into this delta.
    pub fn add(&mut self, other: AuthTokenActivityDelta)
        requires
            fits(old(self).total_requests_delta + other.total_requests_delta),
        ensures
            *final(self) == activity_sum(*old(self), other),
    {
        self.total_requests_delta = self.total_requests_delta + other.total_requests_delta;
        if let Some(last_used_at) = other.last_used_at {
            self.last_used_at = Some(match self.last_used_at {
                Some(current) => if current >= last_used_at { current } else { last_used_at },
                None => last_used_at,
            });
        }
    }

    /// Whether this delta records nothing.
    pub fn is_zero(&self) -> (r: bool)
        ensures
            r == activity_is_zero(*self),
    {
        self.total_requests_delta == 0 && self.last_used_at.is_none()
    }
}

/// Merging activity does not depend on the order of the deltas.
pub proof fn lemma_activity_sum_commutes(a: AuthTokenActivityDelta, b: AuthTokenActivityDelta)
    ensures
        activity_sum(a, b) == activity_sum(b, a),
{
}

/// Merging activity does not depend on how the deltas are grouped.
pub proof fn lemma_activity_sum_associates(a: AuthTokenActivityDelta, b: AuthTokenActivityDelta, c: AuthTokenActivityDelta)
    requires
        fits(a.total_requests_delta + b.total_requests_delta),
        fits(b.total_requests_delta + c.total_requests_delta),
        fits(a.total_requests_delta + b.total_requests_delta + c.total_requests_delta),
    ensures
        activity_sum(activity_sum(a, b), c) == activity_sum(a, activity_sum(b, c)),
{
}

/// Merging a delta that records nothing changes nothing.
pub proof fn lemma_activity_sum_zero(a: AuthTokenActivityDelta, z: AuthTokenActivityDelta)
    requires
        activity_is_zero(z),
    ensures
        activity_sum(a, z) == a,
{
}

/// The range an hourly request chart reads: the first bucket of the
/// retained series, the end of the current bucket, and how far bucket
/// starts sit past a multiple of the bucket length.
#[derive(Clone, Copy, Debug)]
pub struct DashboardHourlyWindowBounds {
    pub series_start: i64,
    pub range_end: i64,
    pub hour_alignment_offset: i64,
}

/// The range of an hourly request chart ending with the bucket that starts
/// at `current_hour_start`; `None` (an empty chart) unless the bucket
/// length and both bucket counts are positive.
pub fn dashboard_hourly_window_bounds(current_hour_start: i64, bucket_seconds: i64, visible_buckets: i64, retained_buckets: i64) -> (r: Option<DashboardHourlyWindowBounds>)
    ensures
        (bucket_seconds <= 0 || visible_buckets <= 0 || retained_buckets <= 0) <==> r is None,
        r matches Some(b) ==> {
            &&& b.series_start as int == sat_sub(current_hour_start as int, sat_mul(bucket_seconds as int, sat_sub(retained_buckets as int, 1)))
            &&& b.range_end as int == sat_add(current_hour_start as int, bucket_seconds as int)
            &&& b.hour_alignment_offset as int == current_hour_start as int % bucket_seconds as int
            &&& 0 <= b.hour_alignment_offset < bucket_seconds
        },
{
    if bucket_seconds <= 0 || visible_buckets <= 0 || retained_buckets <= 0 {
        return None;
    }
    let span = saturating_mul_i64(bucket_seconds, saturating_sub_i64(retained_buckets, 1));
    let series_start = saturating_sub_i64(current_hour_start, span);
    let range_end = saturating_add_i64(current_hour_start, bucket_seconds);
    let offset = match current_hour_start.checked_rem_euclid(bucket_seconds) {
        Some(v) => v,
        None => 0,
    };
    proof {
        vstd::arithmetic::div_mod::lemma_mod_bound(current_hour_start as int, bucket_seconds as int);
    }
    Some(DashboardHourlyWindowBounds { series_start, range_end, hour_alignment_offset: offset })
}

/// Where the current month's request logs are missing: from the month's
/// start to the earliest log kept this month, or, when none is known, to
/// `gap_fallback_end`; `None` when there is no such gap.
pub fn utc_month_gap_end(month_start: i64, month_request_log_floor: Option<i64>, gap_fallback_end: i64) -> (r: Option<i64>)
    ensures
        r == (match month_request_log_floor {
            Some(floor) => if floor > month_start { Some(floor) } else { None },
            None => if gap_fallback_end > month_start { Some(gap_fallback_end) } else { None },
        }),
{
    match month_request_log_floor {
        Some(floor) => if floor > month_start { Some(floor) } else { None },
        None => if gap_fallback_end > month_start { Some(gap_fallback_end) } else { None },
    }
}

/// How a month's log gap is filled from the daily usage buckets: the whole
/// local days inside the gap, read from the buckets as they are; and the
/// local day the gap ends in, read from its bucket less what the kept logs
/// already count from the gap's end to that day's end.
#[derive(Clone, Copy, Debug)]
pub struct UtcMonthGapPlan {
    /// The whole days, as `[from, to)`.
    pub full_days: Option<(i64, i64)>,
    /// The day the gap ends in, as `[day start, day end)`.
    pub partial_day: Option<(i64, i64)>,
}

/// The plan for a month's log gap ending at `gap_end`, given the local day
/// bucket holding the month's start and the next one, and the local day
/// bucket holding `gap_end` and the next one. The whole days start at the
/// month's start when that is a day boundary, else at the next day.
pub fn utc_month_gap_plan(
    month_start: i64,
    gap_end: i64,
    first_bucket_start: i64,
    first_bucket_next_start: i64,
    last_gap_bucket_start: i64,
    last_gap_bucket_end: i64,
) -> (r: UtcMonthGapPlan)
    ensures
        ({
            let first_exact = if first_bucket_start == month_start { month_start } else { first_bucket_next_start };
            &&& r.full_days == (if first_exact < last_gap_bucket_start { Some((first_exact, last_gap_bucket_start)) } else { None })
            &&& r.partial_day == (if gap_end > last_gap_bucket_start && last_gap_bucket_start >= month_start {
                    Some((last_gap_bucket_start, last_gap_bucket_end))
                } else {
                    None
                })
        }),
{
    let first_exact = if first_bucket_start == month_start { month_start } else { first_bucket_next_start };
    let full_days = if first_exact < last_gap_bucket_start { Some((first_exact, last_gap_bucket_start)) } else { None };
    let partial_day = if gap_end > last_gap_bucket_start && last_gap_bucket_start >= month_start {
        Some((last_gap_bucket_start, last_gap_bucket_end))
    } else {
        None
    };
    UtcMonthGapPlan { full_days, partial_day }
}

} // verus!
