//! Counting one logged request into the request-stats coalescer: its
//! dashboard minute and day roll-ups, its key's usage for the day, its
//! token's activity, its user's five-minute count and its catalogue entry.

use vstd::prelude::*;
use crate::coalescer::{
    RequestLogCatalogRollupKey, RequestStatsCoalescer, RequestStatsCoalescerState, RollupKeyModel,
    SECS_PER_DAY, SECS_PER_MINUTE, account_entries, activity_entries, catalog_model, coalescer_wf,
    five_minute_bucket, key_index, lemma_key_index, lemma_key_index_at, no_activity, one_request,
    pending_keys_spec, plus_one, upsert, usage_model, value_or,
};
use crate::flush::{
    count_add, counts_add, find_pair_key, find_rollup, find_text_key, find_token, merge_one_dashboard,
    merge_one_rollup, merge_one_usage, usage_add, zero_usage,
};
use crate::metrics::{
    ApiKeyUsageBucketDelta, DashboardRequestRollupCounts, counts_add_fits, usage_add_fits, zero_counts,
};

verus! {

/// The start of the minute holding `t`.
pub open spec fn minute_bucket_of(t: i64) -> int {
    t - t % 60
}

/// The key-usage counters a request's roll-up counts add.
pub open spec fn usage_of_counts(c: DashboardRequestRollupCounts) -> ApiKeyUsageBucketDelta {
    ApiKeyUsageBucketDelta {
        total_requests: c.total_requests,
        success_count: c.success_count,
        error_count: c.error_count,
        quota_exhausted_count: c.quota_exhausted_count,
        valuable_success_count: c.valuable_success_count,
        valuable_failure_count: c.valuable_failure_count,
        other_success_count: c.other_success_count,
        other_failure_count: c.other_failure_count,
        unknown_count: c.unknown_count,
    }
}

/// The view of an optional text.
pub open spec fn opt_view(o: Option<&str>) -> Option<Seq<char>> {
    match o {
        Some(s) => Some(s@),
        None => None,
    }
}

/// The view of an optional catalogue key.
pub open spec fn opt_key_view(o: Option<RequestLogCatalogRollupKey>) -> Option<RollupKeyModel> {
    match o {
        Some(k) => Some(k@),
        None => None,
    }
}

/// Whether counting the request keeps every counter within `i64`, its
/// minute within range, and the number of pending keys within `usize`.
pub open spec fn request_log_rollups_fit(
    s: RequestStatsCoalescerState,
    api_key_id: Option<Seq<char>>,
    auth_token_id: Seq<char>,
    request_user_id: Option<Seq<char>>,
    created_at: i64,
    day_bucket_start: i64,
    counts: DashboardRequestRollupCounts,
    catalog_key: Option<RollupKeyModel>,
) -> bool {
    &&& i64::MIN <= minute_bucket_of(created_at)
    &&& counts_add_fits(value_or(s.pending_dashboard_rollups@, (minute_bucket_of(created_at) as i64, 60i64), zero_counts()), counts)
    &&& counts_add_fits(value_or(s.pending_dashboard_rollups@, (day_bucket_start, 86400i64), zero_counts()), counts)
    &&& (api_key_id matches Some(k) ==>
        usage_add_fits(value_or(usage_model(s.pending_api_key_usage@), (k, day_bucket_start), zero_usage()), usage_of_counts(counts)))
    &&& value_or(activity_entries(s), auth_token_id, no_activity()).total_requests_delta < i64::MAX
    &&& (request_user_id is Some ==> i64::MIN <= created_at - created_at % 300)
    &&& (request_user_id matches Some(u) ==> value_or(account_entries(s), (u, five_minute_bucket(created_at)), 0i64) < i64::MAX)
    &&& (catalog_key matches Some(k) ==> value_or(catalog_model(s.pending_request_log_catalog@), k, 0i64) < i64::MAX)
    &&& pending_keys_spec(s) + 6 <= usize::MAX
}

/// The value under a key, found with `find` when keys are distinct.
proof fn lemma_value_at<K, V>(s: Seq<(K, V)>, k: K, default: V, found: Option<int>)
    requires
        crate::coalescer::distinct_keys(s),
        match found {
            Some(i) => 0 <= i < s.len() && s[i].0 == k,
            None => forall|j: int| 0 <= j < s.len() ==> s[j].0 != k,
        },
    ensures
        value_or(s, k, default) == match found {
            Some(i) => s[i].1,
            None => default,
        },
{
    lemma_key_index(s, k);
    if let Some(i) = found {
        lemma_key_index_at(s, k, i);
    }
}

/// Two lists with the same keys at the same places find a key at the same place.
proof fn lemma_key_index_same_keys<K, V>(s: Seq<(K, V)>, r: Seq<(K, V)>, other: K)
    requires
        s.len() == r.len(),
        forall|j: int| 0 <= j < s.len() ==> #[trigger] s[j].0 == r[j].0,
    ensures
        key_index(s, other) == key_index(r, other),
    decreases s.len(),
{
    if s.len() > 0 {
        assert(s.last().0 == r.last().0);
        assert forall|j: int| 0 <= j < s.drop_last().len() implies #[trigger] s.drop_last()[j].0 == r.drop_last()[j].0 by {
            assert(s[j].0 == r[j].0);
        }
        lemma_key_index_same_keys(s.drop_last(), r.drop_last(), other);
    }
}

/// Adding or updating one key leaves the value under any other key as it was.
proof fn lemma_value_or_other<K, V>(s: Seq<(K, V)>, k: K, other: K, default: V, f: spec_fn(V) -> V)
    requires
        k != other,
    ensures
        value_or(upsert(s, k, default, f), other, default) == value_or(s, other, default),
{
    lemma_key_index(s, k);
    lemma_key_index(s, other);
    let r = upsert(s, k, default, f);
    match key_index(s, k) {
        Some(i) => {
            assert forall|j: int| 0 <= j < s.len() implies #[trigger] s[j].0 == r[j].0 by {}
            lemma_key_index_same_keys(s, r, other);
            if let Some(j) = key_index(s, other) {
                assert(j != i);
                assert(r[j] == s[j]);
            }
        }
        None => {
            assert(r.drop_last() =~= s);
            assert(r.last().0 == k);
        }
    }
}

fn counts_fit(a: &DashboardRequestRollupCounts, b: &DashboardRequestRollupCounts) -> (r: bool)
    ensures
        r == counts_add_fits(*a, *b),
{
    a.total_requests.checked_add(b.total_requests).is_some()
        && a.success_count.checked_add(b.success_count).is_some()
        && a.error_count.checked_add(b.error_count).is_some()
        && a.quota_exhausted_count.checked_add(b.quota_exhausted_count).is_some()
        && a.valuable_success_count.checked_add(b.valuable_success_count).is_some()
        && a.valuable_failure_count.checked_add(b.valuable_failure_count).is_some()
        && a.valuable_failure_429_count.checked_add(b.valuable_failure_429_count).is_some()
        && a.other_success_count.checked_add(b.other_success_count).is_some()
        && a.other_failure_count.checked_add(b.other_failure_count).is_some()
        && a.unknown_count.checked_add(b.unknown_count).is_some()
        && a.mcp_non_billable.checked_add(b.mcp_non_billable).is_some()
        && a.mcp_billable.checked_add(b.mcp_billable).is_some()
        && a.api_non_billable.checked_add(b.api_non_billable).is_some()
        && a.api_billable.checked_add(b.api_billable).is_some()
        && a.local_estimated_credits.checked_add(b.local_estimated_credits).is_some()
}

fn usage_fit(a: &ApiKeyUsageBucketDelta, b: &ApiKeyUsageBucketDelta) -> (r: bool)
    ensures
        r == usage_add_fits(*a, *b),
{
    a.total_requests.checked_add(b.total_requests).is_some()
        && a.success_count.checked_add(b.success_count).is_some()
        && a.error_count.checked_add(b.error_count).is_some()
        && a.quota_exhausted_count.checked_add(b.quota_exhausted_count).is_some()
        && a.valuable_success_count.checked_add(b.valuable_success_count).is_some()
        && a.valuable_failure_count.checked_add(b.valuable_failure_count).is_some()
        && a.other_success_count.checked_add(b.other_success_count).is_some()
        && a.other_failure_count.checked_add(b.other_failure_count).is_some()
        && a.unknown_count.checked_add(b.unknown_count).is_some()
}

fn usage_from_counts(c: &DashboardRequestRollupCounts) -> (r: ApiKeyUsageBucketDelta)
    ensures
        r == usage_of_counts(*c),
{
    ApiKeyUsageBucketDelta {
        total_requests: c.total_requests,
        success_count: c.success_count,
        error_count: c.error_count,
        quota_exhausted_count: c.quota_exhausted_count,
        valuable_success_count: c.valuable_success_count,
        valuable_failure_count: c.valuable_failure_count,
        other_success_count: c.other_success_count,
        other_failure_count: c.other_failure_count,
        unknown_count: c.unknown_count,
    }
}

fn dashboard_value(s: &RequestStatsCoalescerState, k: (i64, i64)) -> (r: DashboardRequestRollupCounts)
    requires
        coalescer_wf(*s),
    ensures
        r == value_or(s.pending_dashboard_rollups@, k, zero_counts()),
{
    let found = find_pair_key(&s.pending_dashboard_rollups, k);
    proof {
        lemma_value_at(s.pending_dashboard_rollups@, k, zero_counts(), match found { Some(i) => Some(i as int), None => None });
    }
    match found {
        Some(i) => s.pending_dashboard_rollups[i].1,
        None => DashboardRequestRollupCounts::default(),
    }
}

impl RequestStatsCoalescer {
    /// Whether counting a request with these values keeps every pending
    /// counter within `i64` (the caller checks it before counting).
    #[verifier::spinoff_prover]
    #[verifier::rlimit(40)]
    pub fn request_log_rollups_fit(
        state: &RequestStatsCoalescerState,
        api_key_id: Option<&str>,
        auth_token_id: &str,
        request_user_id: Option<&str>,
        created_at: i64,
        day_bucket_start: i64,
        dashboard_counts: &DashboardRequestRollupCounts,
        request_log_catalog_key: &Option<RequestLogCatalogRollupKey>,
    ) -> (r: bool)
        requires
            coalescer_wf(*state),
        ensures
            r == request_log_rollups_fit(*state, opt_view(api_key_id), auth_token_id@, opt_view(request_user_id),
                created_at, day_bucket_start, *dashboard_counts, opt_key_view(*request_log_catalog_key)),
    {
        let rem = created_at % SECS_PER_MINUTE;
        let rem = if rem < 0 { rem + SECS_PER_MINUTE } else { rem };
        let minute = created_at.checked_sub(rem);
        let minute = match minute {
            Some(m) => m,
            None => return false,
        };
        assert(minute == minute_bucket_of(created_at));
        if !counts_fit(&dashboard_value(state, (minute, SECS_PER_MINUTE)), dashboard_counts) {
            return false;
        }
        if !counts_fit(&dashboard_value(state, (day_bucket_start, SECS_PER_DAY)), dashboard_counts) {
            return false;
        }
        if let Some(key_id) = api_key_id {
            let found = find_text_key(&state.pending_api_key_usage, key_id, day_bucket_start);
            let ghost um = usage_model(state.pending_api_key_usage@);
            proof {
                lemma_value_at(um, (key_id@, day_bucket_start), zero_usage(), match found { Some(i) => Some(i as int), None => None });
            }
            let current = match found {
                Some(i) => state.pending_api_key_usage[i].1,
                None => ApiKeyUsageBucketDelta::default(),
            };
            assert(current == value_or(um, (key_id@, day_bucket_start), zero_usage()));
            if !usage_fit(&current, &usage_from_counts(dashboard_counts)) {
                return false;
            }
        }
        let found = find_token(&state.pending_auth_token_activity, auth_token_id);
        proof {
            lemma_value_at(activity_entries(*state), auth_token_id@, no_activity(), match found { Some(i) => Some(i as int), None => None });
        }
        let token_total = match found {
            Some(i) => state.pending_auth_token_activity[i].1.total_requests_delta,
            None => 0,
        };
        if token_total == i64::MAX {
            return false;
        }
        if let Some(user_id) = request_user_id {
            let rem5 = created_at % 300;
            let rem5 = if rem5 < 0 { rem5 + 300 } else { rem5 };
            let bucket = match created_at.checked_sub(rem5) {
                Some(b) => b,
                None => return false,
            };
            assert(bucket == five_minute_bucket(created_at));
            let found = find_text_key(&state.pending_account_request_rollups, user_id, bucket);
            proof {
                lemma_value_at(account_entries(*state), (user_id@, bucket), 0i64, match found { Some(i) => Some(i as int), None => None });
            }
            let n = match found {
                Some(i) => state.pending_account_request_rollups[i].1,
                None => 0,
            };
            if n == i64::MAX {
                return false;
            }
        }
        if let Some(key) = request_log_catalog_key {
            let found = find_rollup(&state.pending_request_log_catalog, key);
            proof {
                lemma_value_at(catalog_model(state.pending_request_log_catalog@), key@, 0i64, match found { Some(i) => Some(i as int), None => None });
            }
            let n = match found {
                Some(i) => state.pending_request_log_catalog[i].1,
                None => 0,
            };
            if n == i64::MAX {
                return false;
            }
        }
        let pending = state.pending_dashboard_rollups.len() as u128 + state.pending_api_key_usage.len() as u128
            + state.pending_auth_token_activity.len() as u128 + state.pending_account_request_rollups.len() as u128
            + state.pending_request_log_catalog.len() as u128;
        pending + 6 <= usize::MAX as u128
    }

    /// Counts one logged request (`enqueue_request_log_rollups`): its
    /// roll-up counts go to the dashboard bucket of its minute and of its
    /// local day (`day_bucket_start`), and, when it used a key, to that
    /// key's usage for the day; its token and user are counted as by
    /// `enqueue_auth_token_activity_locked`; its catalogue entry, when it
    /// has one, gains one; and the flush deadline is set one second after
    /// `now_ms` unless one is set already.
    #[verifier::spinoff_prover]
    #[verifier::rlimit(40)]
    pub fn enqueue_request_log_rollups(
        state: &mut RequestStatsCoalescerState,
        api_key_id: Option<&str>,
        auth_token_id: &str,
        request_user_id: Option<&str>,
        created_at: i64,
        day_bucket_start: i64,
        dashboard_counts: DashboardRequestRollupCounts,
        request_log_catalog_key: Option<RequestLogCatalogRollupKey>,
        now_ms: u64,
    )
        requires
            coalescer_wf(*old(state)),
            request_log_rollups_fit(*old(state), opt_view(api_key_id), auth_token_id@, opt_view(request_user_id),
                created_at, day_bucket_start, dashboard_counts, opt_key_view(request_log_catalog_key)),
            now_ms <= u64::MAX - 1000,
        ensures
            coalescer_wf(*final(state)),
            final(state).pending_dashboard_rollups@ == minute_and_day_rollups(old(state).pending_dashboard_rollups@,
                minute_bucket_of(created_at) as i64, day_bucket_start, dashboard_counts),
            usage_model(final(state).pending_api_key_usage@) == key_usage_rollup(usage_model(old(state).pending_api_key_usage@),
                opt_view(api_key_id), day_bucket_start, dashboard_counts),
            activity_entries(*final(state)) == upsert(activity_entries(*old(state)), auth_token_id@, no_activity(), one_request(created_at)),
            account_entries(*final(state)) == match request_user_id {
                Some(u) => upsert(account_entries(*old(state)), (u@, five_minute_bucket(created_at)), 0i64, plus_one()),
                None => account_entries(*old(state)),
            },
            catalog_model(final(state).pending_request_log_catalog@) == catalog_rollup(catalog_model(old(state).pending_request_log_catalog@),
                opt_key_view(request_log_catalog_key)),
            final(state).flush_deadline == if old(state).flush_deadline is None {
                Some((now_ms + 1000) as u64)
            } else {
                old(state).flush_deadline
            },
            final(state).flushing == old(state).flushing,
            final(state).shutdown == old(state).shutdown,
    {
        let ghost s0 = *state;
        let rem = created_at % SECS_PER_MINUTE;
        let rem = if rem < 0 { rem + SECS_PER_MINUTE } else { rem };
        let minute = created_at - rem;
        assert(minute == minute_bucket_of(created_at));
        add_minute_and_day(&mut state.pending_dashboard_rollups, minute, day_bucket_start, dashboard_counts);
        add_key_usage(&mut state.pending_api_key_usage, api_key_id, day_bucket_start, &dashboard_counts);
        let ghost s1 = *state;
        Self::enqueue_auth_token_activity_locked(state, auth_token_id, request_user_id, created_at);
        proof {
            lemma_upsert_len(activity_entries(s1), auth_token_id@, no_activity(), one_request(created_at));
            if let Some(u) = request_user_id {
                lemma_upsert_len(account_entries(s1), (u@, five_minute_bucket(created_at)), 0i64, plus_one());
            }
        }
        add_catalog_entry(&mut state.pending_request_log_catalog, request_log_catalog_key);
        proof {
            let f = |x: DashboardRequestRollupCounts| counts_add()(x, dashboard_counts);
            lemma_upsert_len(upsert(s0.pending_dashboard_rollups@, (minute, 60i64), zero_counts(), f), (day_bucket_start, 86400i64), zero_counts(), f);
        }
        assert(pending_keys_spec(*state) <= pending_keys_spec(s0) + 6);
        assert(pending_keys_spec(*state) > 0);
        Self::mark_flush_deadline_if_pending(state, now_ms);
    }
}

/// The dashboard roll-ups with a request's counts added to its minute
/// bucket and to its day bucket.
pub open spec fn minute_and_day_rollups(
    s: Seq<((i64, i64), DashboardRequestRollupCounts)>,
    minute: i64,
    day: i64,
    counts: DashboardRequestRollupCounts,
) -> Seq<((i64, i64), DashboardRequestRollupCounts)> {
    let f = |x: DashboardRequestRollupCounts| counts_add()(x, counts);
    upsert(upsert(s, (minute, 60i64), zero_counts(), f), (day, 86400i64), zero_counts(), f)
}

/// The key usage with a request's counts added to its key's day, when it used a key.
pub open spec fn key_usage_rollup(
    s: Seq<((Seq<char>, i64), ApiKeyUsageBucketDelta)>,
    api_key_id: Option<Seq<char>>,
    day: i64,
    counts: DashboardRequestRollupCounts,
) -> Seq<((Seq<char>, i64), ApiKeyUsageBucketDelta)> {
    match api_key_id {
        Some(k) => upsert(s, (k, day), zero_usage(), |x: ApiKeyUsageBucketDelta| usage_add()(x, usage_of_counts(counts))),
        None => s,
    }
}

/// The catalogue counts with one more under a request's entry, when it has one.
pub open spec fn catalog_rollup(s: Seq<(RollupKeyModel, i64)>, key: Option<RollupKeyModel>) -> Seq<(RollupKeyModel, i64)> {
    match key {
        Some(k) => upsert(s, k, 0i64, |x: i64| count_add()(x, 1i64)),
        None => s,
    }
}

fn add_minute_and_day(
    target: &mut Vec<((i64, i64), DashboardRequestRollupCounts)>,
    minute: i64,
    day: i64,
    counts: DashboardRequestRollupCounts,
)
    requires
        crate::coalescer::distinct_keys(old(target)@),
        counts_add_fits(value_or(old(target)@, (minute, 60i64), zero_counts()), counts),
        counts_add_fits(value_or(old(target)@, (day, 86400i64), zero_counts()), counts),
    ensures
        final(target)@ == minute_and_day_rollups(old(target)@, minute, day, counts),
        crate::coalescer::distinct_keys(final(target)@),
        final(target)@.len() <= old(target)@.len() + 2,
{
    let ghost d0 = target@;
    let ghost f = |x: DashboardRequestRollupCounts| counts_add()(x, counts);
    merge_one_dashboard(target, (minute, SECS_PER_MINUTE), counts);
    proof {
        lemma_value_or_other(d0, (minute, 60i64), (day, 86400i64), zero_counts(), f);
        lemma_upsert_len(d0, (minute, 60i64), zero_counts(), f);
    }
    let ghost d1 = target@;
    merge_one_dashboard(target, (day, SECS_PER_DAY), counts);
    proof {
        lemma_upsert_len(d1, (day, 86400i64), zero_counts(), f);
    }
}

fn add_key_usage(
    target: &mut Vec<((String, i64), ApiKeyUsageBucketDelta)>,
    api_key_id: Option<&str>,
    day: i64,
    counts: &DashboardRequestRollupCounts,
)
    requires
        crate::coalescer::distinct_keys(usage_model(old(target)@)),
        api_key_id matches Some(k) ==>
            usage_add_fits(value_or(usage_model(old(target)@), (k@, day), zero_usage()), usage_of_counts(*counts)),
    ensures
        usage_model(final(target)@) == key_usage_rollup(usage_model(old(target)@), opt_view(api_key_id), day, *counts),
        crate::coalescer::distinct_keys(usage_model(final(target)@)),
        final(target)@.len() <= old(target)@.len() + 1,
{
    if let Some(key_id) = api_key_id {
        let ghost m0 = usage_model(target@);
        let key = (String::from_str(key_id), day);
        merge_one_usage(target, &key, usage_from_counts(counts));
        proof {
            lemma_upsert_len(m0, (key_id@, day), zero_usage(), |x: ApiKeyUsageBucketDelta| usage_add()(x, usage_of_counts(*counts)));
        }
    }
}

fn add_catalog_entry(target: &mut Vec<(RequestLogCatalogRollupKey, i64)>, key: Option<RequestLogCatalogRollupKey>)
    requires
        crate::coalescer::distinct_keys(catalog_model(old(target)@)),
        key matches Some(k) ==> value_or(catalog_model(old(target)@), k@, 0i64) < i64::MAX,
    ensures
        catalog_model(final(target)@) == catalog_rollup(catalog_model(old(target)@), opt_key_view(key)),
        crate::coalescer::distinct_keys(catalog_model(final(target)@)),
        final(target)@.len() <= old(target)@.len() + 1,
{
    if let Some(k) = key {
        let ghost m0 = catalog_model(target@);
        merge_one_rollup(target, &k, 1);
        proof {
            lemma_upsert_len(m0, k@, 0i64, |x: i64| count_add()(x, 1i64));
        }
    }
}

/// Roll-up counts holding only locally estimated credits.
pub open spec fn credit_counts(credits: i64) -> DashboardRequestRollupCounts {
    DashboardRequestRollupCounts { local_estimated_credits: credits, ..zero_counts() }
}

/// Whether adding `credits` to the minute and day roll-ups of `created_at`
/// stays within `i64`, the minute within range, and the pending keys within `usize`.
pub open spec fn credit_rollups_fit(s: RequestStatsCoalescerState, created_at: i64, day_bucket_start: i64, credits: i64) -> bool {
    &&& i64::MIN <= minute_bucket_of(created_at)
    &&& counts_add_fits(value_or(s.pending_dashboard_rollups@, (minute_bucket_of(created_at) as i64, 60i64), zero_counts()), credit_counts(credits))
    &&& counts_add_fits(value_or(s.pending_dashboard_rollups@, (day_bucket_start, 86400i64), zero_counts()), credit_counts(credits))
    &&& pending_keys_spec(s) + 2 <= usize::MAX
}

fn credit_counts_exec(credits: i64) -> (r: DashboardRequestRollupCounts)
    ensures
        r == credit_counts(credits),
{
    let mut c = DashboardRequestRollupCounts::default();
    c.local_estimated_credits = credits;
    c
}

impl RequestStatsCoalescer {
    /// Whether adding `credits` to a request's minute and day roll-ups
    /// keeps every counter within `i64` (the caller checks it first).
    pub fn dashboard_credit_rollups_fit(state: &RequestStatsCoalescerState, created_at: i64, day_bucket_start: i64, credits: i64) -> (r: bool)
        requires
            coalescer_wf(*state),
        ensures
            r == credit_rollups_fit(*state, created_at, day_bucket_start, credits),
    {
        let rem = created_at % SECS_PER_MINUTE;
        let rem = if rem < 0 { rem + SECS_PER_MINUTE } else { rem };
        let minute = match created_at.checked_sub(rem) {
            Some(m) => m,
            None => return false,
        };
        assert(minute == minute_bucket_of(created_at));
        let c = credit_counts_exec(credits);
        if !counts_fit(&dashboard_value(state, (minute, SECS_PER_MINUTE)), &c) {
            return false;
        }
        if !counts_fit(&dashboard_value(state, (day_bucket_start, SECS_PER_DAY)), &c) {
            return false;
        }
        let pending = state.pending_dashboard_rollups.len() as u128 + state.pending_api_key_usage.len() as u128
            + state.pending_auth_token_activity.len() as u128 + state.pending_account_request_rollups.len() as u128
            + state.pending_request_log_catalog.len() as u128;
        pending + 2 <= usize::MAX as u128
    }

    /// Adds locally estimated credits to the dashboard roll-ups of a
    /// request's minute and local day (`enqueue_dashboard_credit_rollups`)
    /// and sets the flush deadline one second after `now_ms` unless one is
    /// set already; credits that are not positive change nothing.
    pub fn enqueue_dashboard_credit_rollups(state: &mut RequestStatsCoalescerState, created_at: i64, day_bucket_start: i64, credits: i64, now_ms: u64)
        requires
            coalescer_wf(*old(state)),
            credits > 0 ==> credit_rollups_fit(*old(state), created_at, day_bucket_start, credits),
            now_ms <= u64::MAX - 1000,
        ensures
            coalescer_wf(*final(state)),
            credits <= 0 ==> *final(state) == *old(state),
            credits > 0 ==> {
                &&& final(state).pending_dashboard_rollups@ == minute_and_day_rollups(old(state).pending_dashboard_rollups@,
                    minute_bucket_of(created_at) as i64, day_bucket_start, credit_counts(credits))
                &&& final(state).pending_api_key_usage@ == old(state).pending_api_key_usage@
                &&& final(state).pending_auth_token_activity@ == old(state).pending_auth_token_activity@
                &&& final(state).pending_account_request_rollups@ == old(state).pending_account_request_rollups@
                &&& final(state).pending_request_log_catalog@ == old(state).pending_request_log_catalog@
                &&& final(state).flush_deadline == if old(state).flush_deadline is None {
                    Some((now_ms + 1000) as u64)
                } else {
                    old(state).flush_deadline
                }
                &&& final(state).flushing == old(state).flushing
                &&& final(state).shutdown == old(state).shutdown
            },
    {
        if credits <= 0 {
            return;
        }
        let ghost s0 = *state;
        let rem = created_at % SECS_PER_MINUTE;
        let rem = if rem < 0 { rem + SECS_PER_MINUTE } else { rem };
        let minute = created_at - rem;
        assert(minute == minute_bucket_of(created_at));
        add_minute_and_day(&mut state.pending_dashboard_rollups, minute, day_bucket_start, credit_counts_exec(credits));
        proof {
            let f = |x: DashboardRequestRollupCounts| counts_add()(x, credit_counts(credits));
            lemma_upsert_len(upsert(s0.pending_dashboard_rollups@, (minute, 60i64), zero_counts(), f), (day_bucket_start, 86400i64), zero_counts(), f);
        }
        assert(pending_keys_spec(*state) <= pending_keys_spec(s0) + 2);
        assert(pending_keys_spec(*state) > 0);
        Self::mark_flush_deadline_if_pending(state, now_ms);
    }
}

/// Adding or updating one key adds at most one entry.
proof fn lemma_upsert_len<K, V>(s: Seq<(K, V)>, k: K, default: V, f: spec_fn(V) -> V)
    ensures
        upsert(s, k, default, f).len() <= s.len() + 1,
        upsert(s, k, default, f).len() >= 1,
{
    lemma_key_index(s, k);
}

} // verus!
