//! The request-stats coalescer: counters gathered in memory between flushes,
//! one entry per key.

use vstd::prelude::*;
use crate::metrics::{
    ApiKeyUsageBucketDelta, AuthTokenActivityDelta, DashboardRequestRollupCounts, activity_sum,
};
use crate::text::str_eq;

verus! {

/// Seconds in a minute.
pub const SECS_PER_MINUTE: i64 = 60;
/// Seconds in five minutes.
pub const SECS_PER_FIVE_MINUTES: i64 = 300;
/// Seconds in a day.
pub const SECS_PER_DAY: i64 = 86400;

/// The key of one request-log catalogue roll-up.
pub struct RequestLogCatalogRollupKey {
    pub bucket_start: i64,
    pub request_kind_key: String,
    pub request_kind_label: String,
    pub result_bucket: String,
    pub key_effect_code: String,
    pub binding_effect_code: String,
    pub selection_effect_code: String,
    pub auth_token_id: String,
    pub api_key_id: String,
    pub operational_class: String,
}

/// The counters waiting for the next flush, one entry per key, and the flush
/// bookkeeping. `flush_deadline` is a time in milliseconds of the clock the
/// caller reads.
pub struct RequestStatsCoalescerState {
    pub pending_dashboard_rollups: Vec<((i64, i64), DashboardRequestRollupCounts)>,
    pub pending_api_key_usage: Vec<((String, i64), ApiKeyUsageBucketDelta)>,
    pub pending_auth_token_activity: Vec<(String, AuthTokenActivityDelta)>,
    pub pending_account_request_rollups: Vec<((String, i64), i64)>,
    pub pending_request_log_catalog: Vec<(RequestLogCatalogRollupKey, i64)>,
    pub flush_deadline: Option<u64>,
    pub flushing: bool,
    pub shutdown: bool,
}

/// Token activity entries, keyed by token id.
pub open spec fn activity_model(v: Seq<(String, AuthTokenActivityDelta)>) -> Seq<(Seq<char>, AuthTokenActivityDelta)> {
    v.map_values(|e: (String, AuthTokenActivityDelta)| (e.0@, e.1))
}

/// Per-user request counts, keyed by user id and five-minute bucket.
pub open spec fn account_model(v: Seq<((String, i64), i64)>) -> Seq<((Seq<char>, i64), i64)> {
    v.map_values(|e: ((String, i64), i64)| ((e.0.0@, e.0.1), e.1))
}

/// Key usage entries, keyed by key id and day bucket.
pub open spec fn usage_model(v: Seq<((String, i64), ApiKeyUsageBucketDelta)>) -> Seq<((Seq<char>, i64), ApiKeyUsageBucketDelta)> {
    v.map_values(|e: ((String, i64), ApiKeyUsageBucketDelta)| ((e.0.0@, e.0.1), e.1))
}

/// The key of a catalogue roll-up as plain values.
pub struct RollupKeyModel {
    pub bucket_start: i64,
    pub request_kind_key: Seq<char>,
    pub request_kind_label: Seq<char>,
    pub result_bucket: Seq<char>,
    pub key_effect_code: Seq<char>,
    pub binding_effect_code: Seq<char>,
    pub selection_effect_code: Seq<char>,
    pub auth_token_id: Seq<char>,
    pub api_key_id: Seq<char>,
    pub operational_class: Seq<char>,
}

impl View for RequestLogCatalogRollupKey {
    type V = RollupKeyModel;

    open spec fn view(&self) -> RollupKeyModel {
        RollupKeyModel {
            bucket_start: self.bucket_start,
            request_kind_key: self.request_kind_key@,
            request_kind_label: self.request_kind_label@,
            result_bucket: self.result_bucket@,
            key_effect_code: self.key_effect_code@,
            binding_effect_code: self.binding_effect_code@,
            selection_effect_code: self.selection_effect_code@,
            auth_token_id: self.auth_token_id@,
            api_key_id: self.api_key_id@,
            operational_class: self.operational_class@,
        }
    }
}

/// Catalogue roll-up counts, keyed by their roll-up key.
pub open spec fn catalog_model(v: Seq<(RequestLogCatalogRollupKey, i64)>) -> Seq<(RollupKeyModel, i64)> {
    v.map_values(|e: (RequestLogCatalogRollupKey, i64)| (e.0@, e.1))
}

/// The pending token activity, by token id.
pub open spec fn activity_entries(s: RequestStatsCoalescerState) -> Seq<(Seq<char>, AuthTokenActivityDelta)> {
    activity_model(s.pending_auth_token_activity@)
}

/// The pending per-user request counts, by user id and five-minute bucket.
pub open spec fn account_entries(s: RequestStatsCoalescerState) -> Seq<((Seq<char>, i64), i64)> {
    account_model(s.pending_account_request_rollups@)
}

/// Whether no key occurs twice.
pub open spec fn distinct_keys<K, V>(s: Seq<(K, V)>) -> bool {
    forall|i: int, j: int| 0 <= i < j < s.len() ==> #[trigger] s[i].0 != #[trigger] s[j].0
}

/// Whether each kind of pending counter holds every key at most once.
pub open spec fn coalescer_wf(s: RequestStatsCoalescerState) -> bool {
    &&& distinct_keys(s.pending_dashboard_rollups@)
    &&& distinct_keys(usage_model(s.pending_api_key_usage@))
    &&& distinct_keys(activity_entries(s))
    &&& distinct_keys(account_entries(s))
    &&& distinct_keys(catalog_model(s.pending_request_log_catalog@))
}

/// The position of `k` among the keys of `s`, if it occurs.
pub open spec fn key_index<K, V>(s: Seq<(K, V)>, k: K) -> Option<int>
    decreases s.len(),
{
    if s.len() == 0 {
        None
    } else if s.last().0 == k {
        Some(s.len() - 1)
    } else {
        key_index(s.drop_last(), k)
    }
}

/// `s` with `f` applied to the value under `k`, or with `(k, f(default))`
/// appended when `k` is not there.
pub open spec fn upsert<K, V>(s: Seq<(K, V)>, k: K, default: V, f: spec_fn(V) -> V) -> Seq<(K, V)> {
    match key_index(s, k) {
        Some(i) => s.update(i, (k, f(s[i].1))),
        None => s.push((k, f(default))),
    }
}

/// The value under `k`, or `default`.
pub open spec fn value_or<K, V>(s: Seq<(K, V)>, k: K, default: V) -> V {
    match key_index(s, k) {
        Some(i) => s[i].1,
        None => default,
    }
}

/// Where a key occurs, and that it does not occur when it has no position.
pub proof fn lemma_key_index<K, V>(s: Seq<(K, V)>, k: K)
    ensures
        key_index(s, k) matches Some(i) ==> 0 <= i < s.len() && s[i].0 == k,
        key_index(s, k) is None ==> forall|j: int| 0 <= j < s.len() ==> s[j].0 != k,
    decreases s.len(),
{
    if s.len() > 0 {
        lemma_key_index(s.drop_last(), k);
        if s.last().0 != k {
            assert forall|j: int| 0 <= j < s.len() - 1 implies s[j].0 == s.drop_last()[j].0 by {}
        }
    }
}

/// With distinct keys, the position of a key is the one it sits at.
pub proof fn lemma_key_index_at<K, V>(s: Seq<(K, V)>, k: K, i: int)
    requires
        distinct_keys(s),
        0 <= i < s.len(),
        s[i].0 == k,
    ensures
        key_index(s, k) == Some(i),
    decreases s.len(),
{
    if i < s.len() - 1 {
        assert(s.last().0 != k) by {
            assert(s[i].0 != s[s.len() - 1].0);
        }
        assert(distinct_keys(s.drop_last())) by {
            assert forall|a: int, b: int| 0 <= a < b < s.drop_last().len() implies
                #[trigger] s.drop_last()[a].0 != #[trigger] s.drop_last()[b].0 by {
                assert(s[a].0 != s[b].0);
            }
        }
        lemma_key_index_at(s.drop_last(), k, i);
    }
}

/// Updating or adding under a key keeps keys distinct.
pub proof fn lemma_upsert_distinct<K, V>(s: Seq<(K, V)>, k: K, default: V, f: spec_fn(V) -> V)
    requires
        distinct_keys(s),
    ensures
        distinct_keys(upsert(s, k, default, f)),
{
    lemma_key_index(s, k);
    let r = upsert(s, k, default, f);
    match key_index(s, k) {
        Some(i) => {
            assert forall|a: int, b: int| 0 <= a < b < r.len() implies #[trigger] r[a].0 != #[trigger] r[b].0 by {
                assert(r[a].0 == s[a].0);
                assert(r[b].0 == s[b].0);
            }
        }
        None => {
            assert forall|a: int, b: int| 0 <= a < b < r.len() implies #[trigger] r[a].0 != #[trigger] r[b].0 by {
                if b == s.len() {
                    assert(r[a].0 == s[a].0);
                } else {
                    assert(r[a].0 == s[a].0);
                    assert(r[b].0 == s[b].0);
                }
            }
        }
    }
}

/// The number of keys waiting for the next flush.
pub open spec fn pending_keys_spec(s: RequestStatsCoalescerState) -> nat {
    s.pending_dashboard_rollups@.len() + s.pending_api_key_usage@.len() + s.pending_auth_token_activity@.len()
        + s.pending_account_request_rollups@.len() + s.pending_request_log_catalog@.len()
}

/// An activity delta of one request at `t`, added to `d`.
pub open spec fn one_request(t: i64) -> spec_fn(AuthTokenActivityDelta) -> AuthTokenActivityDelta {
    |d: AuthTokenActivityDelta| activity_sum(d, AuthTokenActivityDelta { total_requests_delta: 1, last_used_at: Some(t) })
}

/// One more request counted.
pub open spec fn plus_one() -> spec_fn(i64) -> i64 {
    |n: i64| (n + 1) as i64
}

/// The start of the five-minute bucket holding `t` (Euclidean remainder).
pub open spec fn five_minute_bucket(t: i64) -> i64 {
    (t - t % 300) as i64
}

/// A token activity delta with nothing recorded.
pub open spec fn no_activity() -> AuthTokenActivityDelta {
    AuthTokenActivityDelta { total_requests_delta: 0, last_used_at: None }
}

fn find_activity(v: &Vec<(String, AuthTokenActivityDelta)>, k: &str) -> (r: Option<usize>)
    ensures
        match r {
            Some(i) => i < v.len() && v@[i as int].0@ == k@,
            None => forall|j: int| 0 <= j < v.len() ==> v@[j].0@ != k@,
        },
{
    let mut i: usize = 0;
    while i < v.len()
        invariant
            i <= v.len(),
            forall|j: int| 0 <= j < i ==> v@[j].0@ != k@,
        decreases v.len() - i,
    {
        if str_eq(v[i].0.as_str(), k) {
            return Some(i);
        }
        i = i + 1;
    }
    None
}

fn find_account(v: &Vec<((String, i64), i64)>, user: &str, bucket: i64) -> (r: Option<usize>)
    ensures
        match r {
            Some(i) => i < v.len() && v@[i as int].0.0@ == user@ && v@[i as int].0.1 == bucket,
            None => forall|j: int| 0 <= j < v.len() ==> !(v@[j].0.0@ == user@ && v@[j].0.1 == bucket),
        },
{
    let mut i: usize = 0;
    while i < v.len()
        invariant
            i <= v.len(),
            forall|j: int| 0 <= j < i ==> !(v@[j].0.0@ == user@ && v@[j].0.1 == bucket),
        decreases v.len() - i,
    {
        if v[i].0.1 == bucket && str_eq(v[i].0.0.as_str(), user) {
            return Some(i);
        }
        i = i + 1;
    }
    None
}

/// The request-stats coalescer.
pub struct RequestStatsCoalescer {
    pub state: RequestStatsCoalescerState,
}

impl RequestStatsCoalescer {
    /// The number of keys waiting for the next flush.
    pub fn pending_key_count(state: &RequestStatsCoalescerState) -> (r: usize)
        requires
            pending_keys_spec(*state) <= usize::MAX,
        ensures
            r == pending_keys_spec(*state),
    {
        state.pending_dashboard_rollups.len() + state.pending_api_key_usage.len()
            + state.pending_auth_token_activity.len() + state.pending_account_request_rollups.len()
            + state.pending_request_log_catalog.len()
    }

    /// Sets the flush deadline one second after `now_ms` when something is
    /// pending and no deadline is set yet; leaves everything else alone.
    pub fn mark_flush_deadline_if_pending(state: &mut RequestStatsCoalescerState, now_ms: u64)
        requires
            pending_keys_spec(*old(state)) <= usize::MAX,
            now_ms <= u64::MAX - 1000,
        ensures
            final(state).flush_deadline == if pending_keys_spec(*old(state)) > 0 && old(state).flush_deadline is None {
                Some((now_ms + 1000) as u64)
            } else {
                old(state).flush_deadline
            },
            final(state).pending_dashboard_rollups@ == old(state).pending_dashboard_rollups@,
            final(state).pending_api_key_usage@ == old(state).pending_api_key_usage@,
            final(state).pending_auth_token_activity@ == old(state).pending_auth_token_activity@,
            final(state).pending_account_request_rollups@ == old(state).pending_account_request_rollups@,
            final(state).pending_request_log_catalog@ == old(state).pending_request_log_catalog@,
            final(state).flushing == old(state).flushing,
            final(state).shutdown == old(state).shutdown,
    {
        if Self::pending_key_count(state) > 0 && state.flush_deadline.is_none() {
            state.flush_deadline = Some(now_ms + 1000);
        }
    }

    /// Counts one request of a token at `created_at`: the token's activity
    /// gains the request, and when the request has a user, the user's
    /// five-minute bucket gains one.
    pub fn enqueue_auth_token_activity_locked(
        state: &mut RequestStatsCoalescerState,
        auth_token_id: &str,
        request_user_id: Option<&str>,
        created_at: i64,
    )
        requires
            coalescer_wf(*old(state)),
            value_or(activity_entries(*old(state)), auth_token_id@, no_activity()).total_requests_delta < i64::MAX,
            request_user_id is Some ==> i64::MIN <= created_at - created_at % 300,
            request_user_id matches Some(u) ==>
                value_or(account_entries(*old(state)), (u@, five_minute_bucket(created_at)), 0i64) < i64::MAX,
        ensures
            coalescer_wf(*final(state)),
            activity_entries(*final(state)) == upsert(activity_entries(*old(state)), auth_token_id@, no_activity(), one_request(created_at)),
            account_entries(*final(state)) == match request_user_id {
                Some(u) => upsert(account_entries(*old(state)), (u@, five_minute_bucket(created_at)), 0i64, plus_one()),
                None => account_entries(*old(state)),
            },
            final(state).pending_dashboard_rollups@ == old(state).pending_dashboard_rollups@,
            final(state).pending_api_key_usage@ == old(state).pending_api_key_usage@,
            final(state).pending_request_log_catalog@ == old(state).pending_request_log_catalog@,
            final(state).flush_deadline == old(state).flush_deadline,
            final(state).flushing == old(state).flushing,
            final(state).shutdown == old(state).shutdown,
    {
        let ghost a0 = activity_entries(*state);
        let ghost c0 = account_entries(*state);
        proof {
            lemma_key_index(a0, auth_token_id@);
            lemma_upsert_distinct(a0, auth_token_id@, no_activity(), one_request(created_at));
        }
        match find_activity(&state.pending_auth_token_activity, auth_token_id) {
            Some(i) => {
                proof { lemma_key_index_at(a0, auth_token_id@, i as int); }
                let mut d = state.pending_auth_token_activity[i].1;
                d.add_request(created_at);
                let k = state.pending_auth_token_activity[i].0.clone();
                state.pending_auth_token_activity.set(i, (k, d));
                assert(activity_entries(*state) =~= upsert(a0, auth_token_id@, no_activity(), one_request(created_at)));
            }
            None => {
                let mut d = AuthTokenActivityDelta { total_requests_delta: 0, last_used_at: None };
                d.add_request(created_at);
                state.pending_auth_token_activity.push((String::from_str(auth_token_id), d));
                assert(activity_entries(*state) =~= upsert(a0, auth_token_id@, no_activity(), one_request(created_at)));
            }
        }
        if let Some(user_id) = request_user_id {
            let rem = created_at % SECS_PER_FIVE_MINUTES;
            let rem = if rem < 0 { rem + SECS_PER_FIVE_MINUTES } else { rem };
            let bucket_start = created_at - rem;
            assert(bucket_start == five_minute_bucket(created_at));
            let ghost key = (user_id@, bucket_start);
            proof {
                lemma_key_index(c0, key);
                lemma_upsert_distinct(c0, key, 0i64, plus_one());
            }
            match find_account(&state.pending_account_request_rollups, user_id, bucket_start) {
                Some(i) => {
                    proof { lemma_key_index_at(c0, key, i as int); }
                    let n = state.pending_account_request_rollups[i].1;
                    let k = (state.pending_account_request_rollups[i].0.0.clone(), bucket_start);
                    state.pending_account_request_rollups.set(i, (k, n + 1));
                    assert(account_entries(*state) =~= upsert(c0, key, 0i64, plus_one()));
                }
                None => {
                    state.pending_account_request_rollups.push(((String::from_str(user_id), bucket_start), 1));
                    assert(account_entries(*state) =~= upsert(c0, key, 0i64, plus_one()));
                }
            }
        }
    }
}

} // verus!
