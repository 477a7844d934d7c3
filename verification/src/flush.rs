//! Flushing the request-stats coalescer: taking the pending counters out for
//! a write, and putting them back when the write fails.

use vstd::prelude::*;
use crate::coalescer::{
    RequestLogCatalogRollupKey, RequestStatsCoalescer, RequestStatsCoalescerState, RollupKeyModel,
    account_model, activity_model, catalog_model, coalescer_wf, distinct_keys, key_index,
    lemma_key_index, lemma_key_index_at, lemma_upsert_distinct, no_activity, pending_keys_spec,
    upsert, usage_model, value_or,
};
use crate::metrics::{
    ApiKeyUsageBucketDelta, AuthTokenActivityDelta, DashboardRequestRollupCounts, activity_sum,
    counts_add_fits, counts_sum, fits, usage_add_fits, usage_sum, zero_counts,
};
use crate::text::str_eq;

verus! {

/// `s` with each entry of `d` added in turn under its key (starting from
/// `default` for a key `s` lacks).
pub open spec fn merge_all<K, V>(s: Seq<(K, V)>, d: Seq<(K, V)>, default: V, plus: spec_fn(V, V) -> V) -> Seq<(K, V)>
    decreases d.len(),
{
    if d.len() == 0 {
        s
    } else {
        let m = merge_all(s, d.drop_last(), default, plus);
        let v = d.last().1;
        upsert(m, d.last().0, default, |x: V| plus(x, v))
    }
}

/// Whether each addition of a merge fits: the value so far under each
/// entry's key, plus the entry's value, satisfies `ok`.
pub open spec fn merge_fits<K, V>(s: Seq<(K, V)>, d: Seq<(K, V)>, default: V, plus: spec_fn(V, V) -> V, ok: spec_fn(V, V) -> bool) -> bool {
    forall|i: int| #![trigger d[i]] 0 <= i < d.len() ==>
        ok(value_or(merge_all(s, d.take(i), default, plus), d[i].0, default), d[i].1)
}

proof fn lemma_merge_step<K, V>(s: Seq<(K, V)>, d: Seq<(K, V)>, i: int, default: V, plus: spec_fn(V, V) -> V)
    requires
        0 <= i < d.len(),
    ensures
        merge_all(s, d.take(i + 1), default, plus)
            == upsert(merge_all(s, d.take(i), default, plus), d[i].0, default, |x: V| plus(x, d[i].1)),
{
    assert(d.take(i + 1).drop_last() =~= d.take(i));
    assert(d.take(i + 1).last() == d[i]);
}

proof fn lemma_merge_distinct<K, V>(s: Seq<(K, V)>, d: Seq<(K, V)>, default: V, plus: spec_fn(V, V) -> V)
    requires
        distinct_keys(s),
    ensures
        distinct_keys(merge_all(s, d, default, plus)),
    decreases d.len(),
{
    if d.len() > 0 {
        lemma_merge_distinct(s, d.drop_last(), default, plus);
        let v = d.last().1;
        lemma_upsert_distinct(merge_all(s, d.drop_last(), default, plus), d.last().0, default, |x: V| plus(x, v));
    }
}

proof fn lemma_merge_len<K, V>(s: Seq<(K, V)>, d: Seq<(K, V)>, default: V, plus: spec_fn(V, V) -> V)
    ensures
        merge_all(s, d, default, plus).len() <= s.len() + d.len(),
    decreases d.len(),
{
    if d.len() > 0 {
        lemma_merge_len(s, d.drop_last(), default, plus);
        let m = merge_all(s, d.drop_last(), default, plus);
        let v = d.last().1;
        let f = |x: V| plus(x, v);
        lemma_key_index(m, d.last().0);
        assert(upsert(m, d.last().0, default, f).len() <= m.len() + 1);
    }
}

/// Adding entries with distinct keys into nothing gives the entries back,
/// when adding to the default changes nothing.
pub proof fn lemma_merge_into_empty<K, V>(d: Seq<(K, V)>, default: V, plus: spec_fn(V, V) -> V)
    requires
        distinct_keys(d),
        forall|v: V| #[trigger] plus(default, v) == v,
    ensures
        merge_all(Seq::<(K, V)>::empty(), d, default, plus) == d,
    decreases d.len(),
{
    if d.len() > 0 {
        let p = d.drop_last();
        assert(distinct_keys(p)) by {
            assert forall|a: int, b: int| 0 <= a < b < p.len() implies #[trigger] p[a].0 != #[trigger] p[b].0 by {
                assert(d[a].0 != d[b].0);
            }
        }
        lemma_merge_into_empty(p, default, plus);
        lemma_key_index(p, d.last().0);
        assert(key_index(p, d.last().0) is None) by {
            if key_index(p, d.last().0) is Some {
                let j = key_index(p, d.last().0)->0;
                assert(d[j].0 != d[d.len() - 1].0);
            }
        }
        assert(plus(default, d.last().1) == d.last().1);
        assert(p.push((d.last().0, d.last().1)) =~= d);
    }
}

/// Adding two roll-ups.
pub open spec fn counts_add() -> spec_fn(DashboardRequestRollupCounts, DashboardRequestRollupCounts) -> DashboardRequestRollupCounts {
    |a: DashboardRequestRollupCounts, b: DashboardRequestRollupCounts| counts_sum(a, b)
}

/// Whether two roll-ups add within `i64`.
pub open spec fn counts_fit() -> spec_fn(DashboardRequestRollupCounts, DashboardRequestRollupCounts) -> bool {
    |a: DashboardRequestRollupCounts, b: DashboardRequestRollupCounts| counts_add_fits(a, b)
}

/// Adding two usage deltas.
pub open spec fn usage_add() -> spec_fn(ApiKeyUsageBucketDelta, ApiKeyUsageBucketDelta) -> ApiKeyUsageBucketDelta {
    |a: ApiKeyUsageBucketDelta, b: ApiKeyUsageBucketDelta| usage_sum(a, b)
}

/// Whether two usage deltas add within `i64`.
pub open spec fn usage_fit() -> spec_fn(ApiKeyUsageBucketDelta, ApiKeyUsageBucketDelta) -> bool {
    |a: ApiKeyUsageBucketDelta, b: ApiKeyUsageBucketDelta| usage_add_fits(a, b)
}

/// A usage delta with every counter at zero.
pub open spec fn zero_usage() -> ApiKeyUsageBucketDelta {
    ApiKeyUsageBucketDelta {
        total_requests: 0,
        success_count: 0,
        error_count: 0,
        quota_exhausted_count: 0,
        valuable_success_count: 0,
        valuable_failure_count: 0,
        other_success_count: 0,
        other_failure_count: 0,
        unknown_count: 0,
    }
}

/// Merging two activity deltas.
pub open spec fn activity_add() -> spec_fn(AuthTokenActivityDelta, AuthTokenActivityDelta) -> AuthTokenActivityDelta {
    |a: AuthTokenActivityDelta, b: AuthTokenActivityDelta| activity_sum(a, b)
}

/// Whether two activity deltas merge within `i64`.
pub open spec fn activity_fit() -> spec_fn(AuthTokenActivityDelta, AuthTokenActivityDelta) -> bool {
    |a: AuthTokenActivityDelta, b: AuthTokenActivityDelta| fits(a.total_requests_delta + b.total_requests_delta)
}

/// Adding two counts.
pub open spec fn count_add() -> spec_fn(i64, i64) -> i64 {
    |a: i64, b: i64| (a + b) as i64
}

/// Whether two counts add within `i64`.
pub open spec fn count_fit() -> spec_fn(i64, i64) -> bool {
    |a: i64, b: i64| fits(a + b)
}

/// The pending counters taken out for a flush.
pub struct DrainedRequestStats {
    pub dashboard_rollups: Vec<((i64, i64), DashboardRequestRollupCounts)>,
    pub api_key_usage: Vec<((String, i64), ApiKeyUsageBucketDelta)>,
    pub auth_token_activity: Vec<(String, AuthTokenActivityDelta)>,
    pub account_request_rollups: Vec<((String, i64), i64)>,
    pub request_log_catalog: Vec<(RequestLogCatalogRollupKey, i64)>,
}

/// How a flush starts: another flush is running, nothing is pending, or the
/// pending counters were taken out.
pub enum FlushStart {
    AlreadyFlushing,
    NothingPending,
    Drained(DrainedRequestStats),
}

/// Whether two states hold the same pending counters and flush bookkeeping.
pub open spec fn same_state(a: RequestStatsCoalescerState, b: RequestStatsCoalescerState) -> bool {
    &&& a.pending_dashboard_rollups@ == b.pending_dashboard_rollups@
    &&& a.pending_api_key_usage@ == b.pending_api_key_usage@
    &&& a.pending_auth_token_activity@ == b.pending_auth_token_activity@
    &&& a.pending_account_request_rollups@ == b.pending_account_request_rollups@
    &&& a.pending_request_log_catalog@ == b.pending_request_log_catalog@
    &&& a.flush_deadline == b.flush_deadline
    &&& a.flushing == b.flushing
    &&& a.shutdown == b.shutdown
}

/// Whether a drain holds exactly the pending counters of a state.
pub open spec fn drained_from(d: DrainedRequestStats, s: RequestStatsCoalescerState) -> bool {
    &&& d.dashboard_rollups@ == s.pending_dashboard_rollups@
    &&& d.api_key_usage@ == s.pending_api_key_usage@
    &&& d.auth_token_activity@ == s.pending_auth_token_activity@
    &&& d.account_request_rollups@ == s.pending_account_request_rollups@
    &&& d.request_log_catalog@ == s.pending_request_log_catalog@
}

/// Whether a state has nothing pending.
pub open spec fn nothing_pending(s: RequestStatsCoalescerState) -> bool {
    &&& s.pending_dashboard_rollups@.len() == 0
    &&& s.pending_api_key_usage@.len() == 0
    &&& s.pending_auth_token_activity@.len() == 0
    &&& s.pending_account_request_rollups@.len() == 0
    &&& s.pending_request_log_catalog@.len() == 0
}

impl RequestStatsCoalescer {
    /// Starts a flush: when no other flush runs and something is pending,
    /// takes all pending counters out and marks the state as flushing.
    pub fn begin_flush(state: &mut RequestStatsCoalescerState) -> (r: FlushStart)
        requires
            coalescer_wf(*old(state)),
        ensures
            coalescer_wf(*final(state)),
            old(state).flushing ==> r is AlreadyFlushing && same_state(*final(state), *old(state)),
            !old(state).flushing && pending_keys_spec(*old(state)) == 0 ==>
                r is NothingPending && same_state(*final(state), *old(state)),
            !old(state).flushing && pending_keys_spec(*old(state)) > 0 ==> (r matches FlushStart::Drained(d) && {
                &&& drained_from(d, *old(state))
                &&& nothing_pending(*final(state))
                &&& final(state).flushing
                &&& final(state).flush_deadline == old(state).flush_deadline
                &&& final(state).shutdown == old(state).shutdown
            }),
    {
        if state.flushing {
            return FlushStart::AlreadyFlushing;
        }
        if state.pending_dashboard_rollups.len() == 0 && state.pending_api_key_usage.len() == 0
            && state.pending_auth_token_activity.len() == 0 && state.pending_account_request_rollups.len() == 0
            && state.pending_request_log_catalog.len() == 0
        {
            return FlushStart::NothingPending;
        }
        let mut dashboard_rollups = Vec::new();
        let mut api_key_usage = Vec::new();
        let mut auth_token_activity = Vec::new();
        let mut account_request_rollups = Vec::new();
        let mut request_log_catalog = Vec::new();
        std::mem::swap(&mut dashboard_rollups, &mut state.pending_dashboard_rollups);
        std::mem::swap(&mut api_key_usage, &mut state.pending_api_key_usage);
        std::mem::swap(&mut auth_token_activity, &mut state.pending_auth_token_activity);
        std::mem::swap(&mut account_request_rollups, &mut state.pending_account_request_rollups);
        std::mem::swap(&mut request_log_catalog, &mut state.pending_request_log_catalog);
        state.flushing = true;
        proof {
            assert(usage_model(state.pending_api_key_usage@) =~= Seq::empty());
            assert(activity_model(state.pending_auth_token_activity@) =~= Seq::empty());
            assert(account_model(state.pending_account_request_rollups@) =~= Seq::empty());
            assert(catalog_model(state.pending_request_log_catalog@) =~= Seq::empty());
        }
        FlushStart::Drained(DrainedRequestStats {
            dashboard_rollups,
            api_key_usage,
            auth_token_activity,
            account_request_rollups,
            request_log_catalog,
        })
    }
}

pub(crate) fn find_pair_key<V>(v: &Vec<((i64, i64), V)>, k: (i64, i64)) -> (r: Option<usize>)
    ensures
        match r {
            Some(i) => i < v.len() && v@[i as int].0 == k,
            None => forall|j: int| 0 <= j < v.len() ==> v@[j].0 != k,
        },
{
    let mut i: usize = 0;
    while i < v.len()
        invariant
            i <= v.len(),
            forall|j: int| 0 <= j < i ==> v@[j].0 != k,
        decreases v.len() - i,
    {
        if v[i].0.0 == k.0 && v[i].0.1 == k.1 {
            return Some(i);
        }
        i = i + 1;
    }
    None
}

pub(crate) fn find_text_key<V>(v: &Vec<((String, i64), V)>, k: &str, n: i64) -> (r: Option<usize>)
    ensures
        match r {
            Some(i) => i < v.len() && v@[i as int].0.0@ == k@ && v@[i as int].0.1 == n,
            None => forall|j: int| 0 <= j < v.len() ==> !(v@[j].0.0@ == k@ && v@[j].0.1 == n),
        },
{
    let mut i: usize = 0;
    while i < v.len()
        invariant
            i <= v.len(),
            forall|j: int| 0 <= j < i ==> !(v@[j].0.0@ == k@ && v@[j].0.1 == n),
        decreases v.len() - i,
    {
        if v[i].0.1 == n && str_eq(v[i].0.0.as_str(), k) {
            return Some(i);
        }
        i = i + 1;
    }
    None
}

pub(crate) fn find_token<V>(v: &Vec<(String, V)>, k: &str) -> (r: Option<usize>)
    ensures
        match r {
            Some(i) => i < v.len() && v@[i as int].0@ == k@,
            None => forall|j: int| 0 <= j < v.len() ==> v@[j].0@ != k@,
        },
{
    let mut i: usize = 0;
    while i < v.len()
        invariant
            i <= v.len(),
            forall|j: int| 0 <= j < i ==> v@[j].0@ != k@,
        decreases v.len() - i,
    {
        if str_eq(v[i].0.as_str(), k) {
            return Some(i);
        }
        i = i + 1;
    }
    None
}

fn rollup_key_eq(a: &RequestLogCatalogRollupKey, b: &RequestLogCatalogRollupKey) -> (r: bool)
    ensures
        r == (a@ == b@),
{
    a.bucket_start == b.bucket_start && str_eq(a.request_kind_key.as_str(), b.request_kind_key.as_str())
        && str_eq(a.request_kind_label.as_str(), b.request_kind_label.as_str())
        && str_eq(a.result_bucket.as_str(), b.result_bucket.as_str())
        && str_eq(a.key_effect_code.as_str(), b.key_effect_code.as_str())
        && str_eq(a.binding_effect_code.as_str(), b.binding_effect_code.as_str())
        && str_eq(a.selection_effect_code.as_str(), b.selection_effect_code.as_str())
        && str_eq(a.auth_token_id.as_str(), b.auth_token_id.as_str())
        && str_eq(a.api_key_id.as_str(), b.api_key_id.as_str())
        && str_eq(a.operational_class.as_str(), b.operational_class.as_str())
}

fn clone_rollup_key(k: &RequestLogCatalogRollupKey) -> (r: RequestLogCatalogRollupKey)
    ensures
        r@ == k@,
{
    RequestLogCatalogRollupKey {
        bucket_start: k.bucket_start,
        request_kind_key: k.request_kind_key.clone(),
        request_kind_label: k.request_kind_label.clone(),
        result_bucket: k.result_bucket.clone(),
        key_effect_code: k.key_effect_code.clone(),
        binding_effect_code: k.binding_effect_code.clone(),
        selection_effect_code: k.selection_effect_code.clone(),
        auth_token_id: k.auth_token_id.clone(),
        api_key_id: k.api_key_id.clone(),
        operational_class: k.operational_class.clone(),
    }
}

pub(crate) fn find_rollup<V>(v: &Vec<(RequestLogCatalogRollupKey, V)>, k: &RequestLogCatalogRollupKey) -> (r: Option<usize>)
    ensures
        match r {
            Some(i) => i < v.len() && v@[i as int].0@ == k@,
            None => forall|j: int| 0 <= j < v.len() ==> v@[j].0@ != k@,
        },
{
    let mut i: usize = 0;
    while i < v.len()
        invariant
            i <= v.len(),
            forall|j: int| 0 <= j < i ==> v@[j].0@ != k@,
        decreases v.len() - i,
    {
        if rollup_key_eq(&v[i].0, k) {
            return Some(i);
        }
        i = i + 1;
    }
    None
}

pub(crate) fn merge_one_dashboard(target: &mut Vec<((i64, i64), DashboardRequestRollupCounts)>, k: (i64, i64), v: DashboardRequestRollupCounts)
    requires
        distinct_keys(old(target)@),
        counts_add_fits(value_or(old(target)@, k, zero_counts()), v),
    ensures
        final(target)@ == upsert(old(target)@, k, zero_counts(), |x: DashboardRequestRollupCounts| counts_add()(x, v)),
        distinct_keys(final(target)@),
{
    let ghost m = target@;
    proof {
        lemma_key_index(m, k);
        lemma_upsert_distinct(m, k, zero_counts(), |x: DashboardRequestRollupCounts| counts_add()(x, v));
    }
    match find_pair_key(target, k) {
        Some(j) => {
            proof { lemma_key_index_at(m, k, j as int); }
            let mut c = target[j].1;
            c.add(v);
            target.set(j, (k, c));
            assert(target@ =~= upsert(m, k, zero_counts(), |x: DashboardRequestRollupCounts| counts_add()(x, v)));
        }
        None => {
            let mut c = DashboardRequestRollupCounts::default();
            c.add(v);
            target.push((k, c));
            assert(target@ =~= upsert(m, k, zero_counts(), |x: DashboardRequestRollupCounts| counts_add()(x, v)));
        }
    }
}

#[verifier::spinoff_prover]
fn merge_dashboard(target: &mut Vec<((i64, i64), DashboardRequestRollupCounts)>, d: &Vec<((i64, i64), DashboardRequestRollupCounts)>)
    requires
        distinct_keys(old(target)@),
        merge_fits(old(target)@, d@, zero_counts(), counts_add(), counts_fit()),
    ensures
        final(target)@ == merge_all(old(target)@, d@, zero_counts(), counts_add()),
        distinct_keys(final(target)@),
{
    let ghost s0 = target@;
    let mut i: usize = 0;
    while i < d.len()
        invariant
            i <= d.len(),
            merge_fits(s0, d@, zero_counts(), counts_add(), counts_fit()),
            target@ == merge_all(s0, d@.take(i as int), zero_counts(), counts_add()),
            distinct_keys(target@),
        decreases d.len() - i,
    {
        proof {
            lemma_merge_step(s0, d@, i as int, zero_counts(), counts_add());
            assert(counts_fit()(value_or(target@, d@[i as int].0, zero_counts()), d@[i as int].1));
        }
        merge_one_dashboard(target, d[i].0, d[i].1);
        i = i + 1;
    }
    assert(d@.take(d.len() as int) =~= d@);
}

pub(crate) fn merge_one_usage(target: &mut Vec<((String, i64), ApiKeyUsageBucketDelta)>, key: &(String, i64), v: ApiKeyUsageBucketDelta)
    requires
        distinct_keys(usage_model(old(target)@)),
        usage_add_fits(value_or(usage_model(old(target)@), (key.0@, key.1), zero_usage()), v),
    ensures
        usage_model(final(target)@) == upsert(usage_model(old(target)@), (key.0@, key.1), zero_usage(), |x: ApiKeyUsageBucketDelta| usage_add()(x, v)),
        distinct_keys(usage_model(final(target)@)),
{
    let ghost m = usage_model(target@);
    let ghost k = (key.0@, key.1);
    proof {
        lemma_key_index(m, k);
        lemma_upsert_distinct(m, k, zero_usage(), |x: ApiKeyUsageBucketDelta| usage_add()(x, v));
    }
    match find_text_key(target, key.0.as_str(), key.1) {
        Some(j) => {
            proof { lemma_key_index_at(m, k, j as int); }
            let mut c = target[j].1;
            c.add(v);
            let kk = (target[j].0.0.clone(), target[j].0.1);
            target.set(j, (kk, c));
            assert(usage_model(target@) =~= upsert(m, k, zero_usage(), |x: ApiKeyUsageBucketDelta| usage_add()(x, v)));
        }
        None => {
            let mut c = ApiKeyUsageBucketDelta::default();
            c.add(v);
            target.push(((key.0.clone(), key.1), c));
            assert(usage_model(target@) =~= upsert(m, k, zero_usage(), |x: ApiKeyUsageBucketDelta| usage_add()(x, v)));
        }
    }
}

#[verifier::spinoff_prover]
#[verifier::rlimit(40)]
fn merge_usage(target: &mut Vec<((String, i64), ApiKeyUsageBucketDelta)>, d: &Vec<((String, i64), ApiKeyUsageBucketDelta)>)
    requires
        distinct_keys(usage_model(old(target)@)),
        merge_fits(usage_model(old(target)@), usage_model(d@), zero_usage(), usage_add(), usage_fit()),
    ensures
        usage_model(final(target)@) == merge_all(usage_model(old(target)@), usage_model(d@), zero_usage(), usage_add()),
        distinct_keys(usage_model(final(target)@)),
{
    let ghost s0 = usage_model(target@);
    let ghost dm = usage_model(d@);
    let mut i: usize = 0;
    while i < d.len()
        invariant
            i <= d.len(),
            dm == usage_model(d@),
            merge_fits(s0, dm, zero_usage(), usage_add(), usage_fit()),
            usage_model(target@) == merge_all(s0, dm.take(i as int), zero_usage(), usage_add()),
            distinct_keys(usage_model(target@)),
        decreases d.len() - i,
    {
        let ghost before = usage_model(target@);
        proof {
            assert(dm[i as int] == ((d@[i as int].0.0@, d@[i as int].0.1), d@[i as int].1));
            lemma_merge_step(s0, dm, i as int, zero_usage(), usage_add());
            assert(usage_fit()(value_or(before, dm[i as int].0, zero_usage()), dm[i as int].1));
        }
        merge_one_usage(target, &d[i].0, d[i].1);
        assert(usage_model(target@) == merge_all(s0, dm.take(i + 1), zero_usage(), usage_add()));
        i = i + 1;
    }
    assert(dm.take(d.len() as int) =~= dm);
}

fn merge_one_activity(target: &mut Vec<(String, AuthTokenActivityDelta)>, key: &String, v: AuthTokenActivityDelta)
    requires
        distinct_keys(activity_model(old(target)@)),
        fits(value_or(activity_model(old(target)@), key@, no_activity()).total_requests_delta + v.total_requests_delta),
    ensures
        activity_model(final(target)@) == upsert(activity_model(old(target)@), key@, no_activity(), |x: AuthTokenActivityDelta| activity_add()(x, v)),
        distinct_keys(activity_model(final(target)@)),
{
    let ghost m = activity_model(target@);
    let ghost k = key@;
    proof {
        lemma_key_index(m, k);
        lemma_upsert_distinct(m, k, no_activity(), |x: AuthTokenActivityDelta| activity_add()(x, v));
    }
    match find_token(target, key.as_str()) {
        Some(j) => {
            proof { lemma_key_index_at(m, k, j as int); }
            let mut c = target[j].1;
            c.add(v);
            let kk = target[j].0.clone();
            target.set(j, (kk, c));
            assert(activity_model(target@) =~= upsert(m, k, no_activity(), |x: AuthTokenActivityDelta| activity_add()(x, v)));
        }
        None => {
            let mut c = AuthTokenActivityDelta::default();
            c.add(v);
            target.push((key.clone(), c));
            assert(activity_model(target@) =~= upsert(m, k, no_activity(), |x: AuthTokenActivityDelta| activity_add()(x, v)));
        }
    }
}

#[verifier::spinoff_prover]
fn merge_activity(target: &mut Vec<(String, AuthTokenActivityDelta)>, d: &Vec<(String, AuthTokenActivityDelta)>)
    requires
        distinct_keys(activity_model(old(target)@)),
        merge_fits(activity_model(old(target)@), activity_model(d@), no_activity(), activity_add(), activity_fit()),
    ensures
        activity_model(final(target)@) == merge_all(activity_model(old(target)@), activity_model(d@), no_activity(), activity_add()),
        distinct_keys(activity_model(final(target)@)),
{
    let ghost s0 = activity_model(target@);
    let ghost dm = activity_model(d@);
    let mut i: usize = 0;
    while i < d.len()
        invariant
            i <= d.len(),
            dm == activity_model(d@),
            merge_fits(s0, dm, no_activity(), activity_add(), activity_fit()),
            activity_model(target@) == merge_all(s0, dm.take(i as int), no_activity(), activity_add()),
            distinct_keys(activity_model(target@)),
        decreases d.len() - i,
    {
        proof {
            lemma_merge_step(s0, dm, i as int, no_activity(), activity_add());
            assert(activity_fit()(value_or(activity_model(target@), dm[i as int].0, no_activity()), dm[i as int].1));
        }
        merge_one_activity(target, &d[i].0, d[i].1);
        i = i + 1;
    }
    assert(dm.take(d.len() as int) =~= dm);
}

fn merge_one_account(target: &mut Vec<((String, i64), i64)>, key: &(String, i64), v: i64)
    requires
        distinct_keys(account_model(old(target)@)),
        fits(value_or(account_model(old(target)@), (key.0@, key.1), 0i64) + v),
    ensures
        account_model(final(target)@) == upsert(account_model(old(target)@), (key.0@, key.1), 0i64, |x: i64| count_add()(x, v)),
        distinct_keys(account_model(final(target)@)),
{
    let ghost m = account_model(target@);
    let ghost k = (key.0@, key.1);
    proof {
        lemma_key_index(m, k);
        lemma_upsert_distinct(m, k, 0i64, |x: i64| count_add()(x, v));
    }
    match find_text_key(target, key.0.as_str(), key.1) {
        Some(j) => {
            proof { lemma_key_index_at(m, k, j as int); }
            let c = target[j].1 + v;
            let kk = (target[j].0.0.clone(), target[j].0.1);
            target.set(j, (kk, c));
            assert(account_model(target@) =~= upsert(m, k, 0i64, |x: i64| count_add()(x, v)));
        }
        None => {
            target.push(((key.0.clone(), key.1), v));
            assert(account_model(target@) =~= upsert(m, k, 0i64, |x: i64| count_add()(x, v)));
        }
    }
}

#[verifier::spinoff_prover]
fn merge_accounts(target: &mut Vec<((String, i64), i64)>, d: &Vec<((String, i64), i64)>)
    requires
        distinct_keys(account_model(old(target)@)),
        merge_fits(account_model(old(target)@), account_model(d@), 0i64, count_add(), count_fit()),
    ensures
        account_model(final(target)@) == merge_all(account_model(old(target)@), account_model(d@), 0i64, count_add()),
        distinct_keys(account_model(final(target)@)),
{
    let ghost s0 = account_model(target@);
    let ghost dm = account_model(d@);
    let mut i: usize = 0;
    while i < d.len()
        invariant
            i <= d.len(),
            dm == account_model(d@),
            merge_fits(s0, dm, 0i64, count_add(), count_fit()),
            account_model(target@) == merge_all(s0, dm.take(i as int), 0i64, count_add()),
            distinct_keys(account_model(target@)),
        decreases d.len() - i,
    {
        let ghost before = account_model(target@);
        proof {
            assert(dm[i as int] == ((d@[i as int].0.0@, d@[i as int].0.1), d@[i as int].1));
            lemma_merge_step(s0, dm, i as int, 0i64, count_add());
            assert(count_fit()(value_or(before, dm[i as int].0, 0i64), dm[i as int].1));
        }
        merge_one_account(target, &d[i].0, d[i].1);
        assert(account_model(target@) == merge_all(s0, dm.take(i + 1), 0i64, count_add()));
        i = i + 1;
    }
    assert(dm.take(d.len() as int) =~= dm);
}

pub(crate) fn merge_one_rollup(target: &mut Vec<(RequestLogCatalogRollupKey, i64)>, key: &RequestLogCatalogRollupKey, v: i64)
    requires
        distinct_keys(catalog_model(old(target)@)),
        fits(value_or(catalog_model(old(target)@), key@, 0i64) + v),
    ensures
        catalog_model(final(target)@) == upsert(catalog_model(old(target)@), key@, 0i64, |x: i64| count_add()(x, v)),
        distinct_keys(catalog_model(final(target)@)),
{
    let ghost m = catalog_model(target@);
    let ghost k = key@;
    proof {
        lemma_key_index(m, k);
        lemma_upsert_distinct(m, k, 0i64, |x: i64| count_add()(x, v));
    }
    match find_rollup(target, key) {
        Some(j) => {
            proof { lemma_key_index_at(m, k, j as int); }
            let c = target[j].1 + v;
            let kk = clone_rollup_key(&target[j].0);
            target.set(j, (kk, c));
            assert(catalog_model(target@) =~= upsert(m, k, 0i64, |x: i64| count_add()(x, v)));
        }
        None => {
            target.push((clone_rollup_key(key), v));
            assert(catalog_model(target@) =~= upsert(m, k, 0i64, |x: i64| count_add()(x, v)));
        }
    }
}

#[verifier::spinoff_prover]
fn merge_catalog(target: &mut Vec<(RequestLogCatalogRollupKey, i64)>, d: &Vec<(RequestLogCatalogRollupKey, i64)>)
    requires
        distinct_keys(catalog_model(old(target)@)),
        merge_fits(catalog_model(old(target)@), catalog_model(d@), 0i64, count_add(), count_fit()),
    ensures
        catalog_model(final(target)@) == merge_all(catalog_model(old(target)@), catalog_model(d@), 0i64, count_add()),
        distinct_keys(catalog_model(final(target)@)),
{
    let ghost s0 = catalog_model(target@);
    let ghost dm = catalog_model(d@);
    let mut i: usize = 0;
    while i < d.len()
        invariant
            i <= d.len(),
            dm == catalog_model(d@),
            merge_fits(s0, dm, 0i64, count_add(), count_fit()),
            catalog_model(target@) == merge_all(s0, dm.take(i as int), 0i64, count_add()),
            distinct_keys(catalog_model(target@)),
        decreases d.len() - i,
    {
        proof {
            lemma_merge_step(s0, dm, i as int, 0i64, count_add());
            assert(count_fit()(value_or(catalog_model(target@), dm[i as int].0, 0i64), dm[i as int].1));
        }
        merge_one_rollup(target, &d[i].0, d[i].1);
        i = i + 1;
    }
    assert(dm.take(d.len() as int) =~= dm);
}

/// Whether putting drained counters back keeps every counter within `i64`.
pub open spec fn restore_fits(s: RequestStatsCoalescerState, d: DrainedRequestStats) -> bool {
    &&& merge_fits(s.pending_dashboard_rollups@, d.dashboard_rollups@, zero_counts(), counts_add(), counts_fit())
    &&& merge_fits(usage_model(s.pending_api_key_usage@), usage_model(d.api_key_usage@), zero_usage(), usage_add(), usage_fit())
    &&& merge_fits(activity_model(s.pending_auth_token_activity@), activity_model(d.auth_token_activity@), no_activity(), activity_add(), activity_fit())
    &&& merge_fits(account_model(s.pending_account_request_rollups@), account_model(d.account_request_rollups@), 0i64, count_add(), count_fit())
    &&& merge_fits(catalog_model(s.pending_request_log_catalog@), catalog_model(d.request_log_catalog@), 0i64, count_add(), count_fit())
}

/// The counters of a state once drained counters are put back: each added
/// into what was enqueued since the drain.
pub open spec fn restored(s: RequestStatsCoalescerState, d: DrainedRequestStats, r: RequestStatsCoalescerState) -> bool {
    &&& r.pending_dashboard_rollups@ == merge_all(s.pending_dashboard_rollups@, d.dashboard_rollups@, zero_counts(), counts_add())
    &&& usage_model(r.pending_api_key_usage@) == merge_all(usage_model(s.pending_api_key_usage@), usage_model(d.api_key_usage@), zero_usage(), usage_add())
    &&& activity_model(r.pending_auth_token_activity@) == merge_all(activity_model(s.pending_auth_token_activity@), activity_model(d.auth_token_activity@), no_activity(), activity_add())
    &&& account_model(r.pending_account_request_rollups@) == merge_all(account_model(s.pending_account_request_rollups@), account_model(d.account_request_rollups@), 0i64, count_add())
    &&& catalog_model(r.pending_request_log_catalog@) == merge_all(catalog_model(s.pending_request_log_catalog@), catalog_model(d.request_log_catalog@), 0i64, count_add())
}

impl RequestStatsCoalescer {
    /// Ends a failed flush: puts the drained counters back, adding them to
    /// whatever was enqueued meanwhile, clears the flushing mark and sets a
    /// new flush deadline one second after `now_ms`.
    pub fn restore_failed_flush(state: &mut RequestStatsCoalescerState, drained: DrainedRequestStats, now_ms: u64)
        requires
            coalescer_wf(*old(state)),
            restore_fits(*old(state), drained),
            now_ms <= u64::MAX - 1000,
            pending_keys_spec(*old(state)) + drained.dashboard_rollups@.len() + drained.api_key_usage@.len()
                + drained.auth_token_activity@.len() + drained.account_request_rollups@.len()
                + drained.request_log_catalog@.len() <= usize::MAX,
        ensures
            coalescer_wf(*final(state)),
            restored(*old(state), drained, *final(state)),
            !final(state).flushing,
            final(state).shutdown == old(state).shutdown,
            final(state).flush_deadline == if pending_keys_spec(*final(state)) > 0 { Some((now_ms + 1000) as u64) } else { None },
    {
        merge_dashboard(&mut state.pending_dashboard_rollups, &drained.dashboard_rollups);
        merge_usage(&mut state.pending_api_key_usage, &drained.api_key_usage);
        merge_activity(&mut state.pending_auth_token_activity, &drained.auth_token_activity);
        merge_accounts(&mut state.pending_account_request_rollups, &drained.account_request_rollups);
        merge_catalog(&mut state.pending_request_log_catalog, &drained.request_log_catalog);
        state.flushing = false;
        state.flush_deadline = None;
        proof {
            lemma_merge_len(old(state).pending_dashboard_rollups@, drained.dashboard_rollups@, zero_counts(), counts_add());
            lemma_merge_len(usage_model(old(state).pending_api_key_usage@), usage_model(drained.api_key_usage@), zero_usage(), usage_add());
            lemma_merge_len(activity_model(old(state).pending_auth_token_activity@), activity_model(drained.auth_token_activity@), no_activity(), activity_add());
            lemma_merge_len(account_model(old(state).pending_account_request_rollups@), account_model(drained.account_request_rollups@), 0i64, count_add());
            lemma_merge_len(catalog_model(old(state).pending_request_log_catalog@), catalog_model(drained.request_log_catalog@), 0i64, count_add());
        }
        RequestStatsCoalescer::mark_flush_deadline_if_pending(state, now_ms);
    }

    /// Ends a successful flush: clears the flushing mark and the deadline,
    /// and sets a new deadline when more was enqueued meanwhile.
    pub fn complete_flush(state: &mut RequestStatsCoalescerState, now_ms: u64)
        requires
            pending_keys_spec(*old(state)) <= usize::MAX,
            now_ms <= u64::MAX - 1000,
        ensures
            final(state).pending_dashboard_rollups@ == old(state).pending_dashboard_rollups@,
            final(state).pending_api_key_usage@ == old(state).pending_api_key_usage@,
            final(state).pending_auth_token_activity@ == old(state).pending_auth_token_activity@,
            final(state).pending_account_request_rollups@ == old(state).pending_account_request_rollups@,
            final(state).pending_request_log_catalog@ == old(state).pending_request_log_catalog@,
            !final(state).flushing,
            final(state).shutdown == old(state).shutdown,
            final(state).flush_deadline == if pending_keys_spec(*old(state)) > 0 { Some((now_ms + 1000) as u64) } else { None },
    {
        state.flushing = false;
        state.flush_deadline = None;
        RequestStatsCoalescer::mark_flush_deadline_if_pending(state, now_ms);
    }
}

/// A failed flush loses no counts: putting the drained counters back into a
/// state where nothing was enqueued meanwhile gives back exactly the
/// counters that were pending before the flush.
pub proof fn lemma_failed_flush_loses_nothing(s: RequestStatsCoalescerState, d: DrainedRequestStats, e: RequestStatsCoalescerState, r: RequestStatsCoalescerState)
    requires
        coalescer_wf(s),
        drained_from(d, s),
        nothing_pending(e),
        restored(e, d, r),
    ensures
        r.pending_dashboard_rollups@ == s.pending_dashboard_rollups@,
        usage_model(r.pending_api_key_usage@) == usage_model(s.pending_api_key_usage@),
        activity_model(r.pending_auth_token_activity@) == activity_model(s.pending_auth_token_activity@),
        account_model(r.pending_account_request_rollups@) == account_model(s.pending_account_request_rollups@),
        catalog_model(r.pending_request_log_catalog@) == catalog_model(s.pending_request_log_catalog@),
{
    assert forall|v: DashboardRequestRollupCounts| #[trigger] counts_add()(zero_counts(), v) == v by {}
    assert forall|v: ApiKeyUsageBucketDelta| #[trigger] usage_add()(zero_usage(), v) == v by {}
    assert forall|v: AuthTokenActivityDelta| #[trigger] activity_add()(no_activity(), v) == v by {}
    assert forall|v: i64| #[trigger] count_add()(0i64, v) == v by {}
    assert(e.pending_dashboard_rollups@ =~= Seq::empty());
    assert(usage_model(e.pending_api_key_usage@) =~= Seq::empty());
    assert(activity_model(e.pending_auth_token_activity@) =~= Seq::empty());
    assert(account_model(e.pending_account_request_rollups@) =~= Seq::empty());
    assert(catalog_model(e.pending_request_log_catalog@) =~= Seq::empty());
    lemma_merge_into_empty(s.pending_dashboard_rollups@, zero_counts(), counts_add());
    lemma_merge_into_empty(usage_model(s.pending_api_key_usage@), zero_usage(), usage_add());
    lemma_merge_into_empty(activity_model(s.pending_auth_token_activity@), no_activity(), activity_add());
    lemma_merge_into_empty(account_model(s.pending_account_request_rollups@), 0i64, count_add());
    lemma_merge_into_empty(catalog_model(s.pending_request_log_catalog@), 0i64, count_add());
}

} // verus!
