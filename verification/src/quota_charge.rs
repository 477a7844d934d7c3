//! Upstream quota charged within a window, read off the quota-sync samples
//! of each key: what a key's remaining quota dropped by between consecutive
//! samples.

use vstd::prelude::*;
use crate::alerts::queries::dedup_first;
use crate::metrics::fits;
use crate::text::str_eq;

verus! {

/// One quota sync of a key: its remaining quota at a time.
pub struct QuotaSyncSample {
    pub key_id: String,
    pub quota_remaining: i64,
    pub captured_at: i64,
}

/// The upstream quota charged within one window.
#[derive(Clone, Copy, Debug)]
pub struct QuotaChargeAccumulator {
    pub upstream_actual_credits: i64,
    pub sampled_key_count: i64,
    pub stale_key_count: i64,
    pub latest_sync_at: Option<i64>,
}

/// The quota spent at sample `i`: how much the key's remaining quota dropped
/// since the sample just before it, when that one is of the same key (a rise
/// counts as nothing).
pub open spec fn sample_delta(s: Seq<QuotaSyncSample>, i: int) -> int {
    if 0 < i < s.len() && s[i - 1].key_id@ == s[i].key_id@ {
        let d = s[i - 1].quota_remaining - s[i].quota_remaining;
        if d > 0 { d } else { 0 }
    } else {
        0
    }
}

/// Whether a sample falls within `[start, end)`.
pub open spec fn in_window(x: QuotaSyncSample, start: i64, end: i64) -> bool {
    start <= x.captured_at < end
}

/// The quota spent at the first `n` samples that fall within the window.
pub open spec fn window_credits(s: Seq<QuotaSyncSample>, n: int, start: i64, end: i64) -> int
    decreases n,
{
    if n <= 0 {
        0
    } else {
        window_credits(s, n - 1, start, end) + if in_window(s[n - 1], start, end) { sample_delta(s, n - 1) } else { 0 }
    }
}

/// The keys of the first `n` samples that fall within the window, in order.
pub open spec fn window_keys(s: Seq<QuotaSyncSample>, n: int, start: i64, end: i64) -> Seq<Seq<char>>
    decreases n,
{
    if n <= 0 {
        Seq::empty()
    } else {
        let k = window_keys(s, n - 1, start, end);
        if in_window(s[n - 1], start, end) { k.push(s[n - 1].key_id@) } else { k }
    }
}

/// The latest time among the first `n` samples that fall within the window.
pub open spec fn window_latest(s: Seq<QuotaSyncSample>, n: int, start: i64, end: i64) -> Option<i64>
    decreases n,
{
    if n <= 0 {
        None
    } else {
        let l = window_latest(s, n - 1, start, end);
        if in_window(s[n - 1], start, end) {
            match l {
                Some(t) => if s[n - 1].captured_at > t { Some(s[n - 1].captured_at) } else { l },
                None => Some(s[n - 1].captured_at),
            }
        } else {
            l
        }
    }
}

/// Whether every drop between consecutive samples of a key fits in `i64`.
pub open spec fn deltas_fit(s: Seq<QuotaSyncSample>) -> bool {
    forall|i: int| 0 < i < s.len() ==> fits(#[trigger] s[i - 1].quota_remaining - s[i].quota_remaining)
}

proof fn lemma_window_credits_mono(s: Seq<QuotaSyncSample>, a: int, b: int, start: i64, end: i64)
    requires
        0 <= a <= b,
    ensures
        0 <= window_credits(s, a, start, end) <= window_credits(s, b, start, end),
    decreases b,
{
    if a < b {
        lemma_window_credits_mono(s, a, b - 1, start, end);
    } else if a > 0 {
        lemma_window_credits_mono(s, a - 1, a - 1, start, end);
    }
}

proof fn lemma_window_keys_len(s: Seq<QuotaSyncSample>, n: int, start: i64, end: i64)
    requires
        0 <= n,
    ensures
        window_keys(s, n, start, end).len() <= n,
    decreases n,
{
    if n > 0 {
        lemma_window_keys_len(s, n - 1, start, end);
    }
}

proof fn lemma_dedup_first_len(s: Seq<Seq<char>>)
    ensures
        dedup_first(s).len() <= s.len(),
    decreases s.len(),
{
    if s.len() > 0 {
        lemma_dedup_first_len(s.drop_last());
    }
}

fn contains_key(v: &Vec<String>, k: &str) -> (r: bool)
    ensures
        r == v@.map_values(|x: String| x@).contains(k@),
{
    let ghost m = v@.map_values(|x: String| x@);
    let mut i: usize = 0;
    while i < v.len()
        invariant
            i <= v.len(),
            m == v@.map_values(|x: String| x@),
            forall|j: int| 0 <= j < i ==> v@[j]@ != k@,
        decreases v.len() - i,
    {
        if str_eq(v[i].as_str(), k) {
            assert(m[i as int] == k@);
            return true;
        }
        i = i + 1;
    }
    proof {
        if m.contains(k@) {
            let j = choose|j: int| 0 <= j < m.len() && m[j] == k@;
            assert(v@[j]@ == k@);
        }
    }
    false
}

/// The quota charged within `[start, end)`: the drops of the samples that
/// fall within it, the number of distinct keys sampled within it, the latest
/// sample time within it, and `stale_key_count` as given.
pub fn accumulate_quota_charge(samples: &Vec<QuotaSyncSample>, start: i64, end: i64, stale_key_count: i64) -> (r: QuotaChargeAccumulator)
    requires
        deltas_fit(samples@),
        window_credits(samples@, samples@.len() as int, start, end) <= i64::MAX,
        samples@.len() <= i64::MAX,
    ensures
        r.upstream_actual_credits == window_credits(samples@, samples@.len() as int, start, end),
        r.sampled_key_count == dedup_first(window_keys(samples@, samples@.len() as int, start, end)).len(),
        r.stale_key_count == stale_key_count,
        r.latest_sync_at == window_latest(samples@, samples@.len() as int, start, end),
        r.upstream_actual_credits >= 0,
        r.sampled_key_count <= samples@.len(),
{
    let ghost s = samples@;
    let mut credits: i64 = 0;
    let mut keys: Vec<String> = Vec::new();
    let mut latest: Option<i64> = None;
    let mut i: usize = 0;
    while i < samples.len()
        invariant
            i <= samples.len(),
            s == samples@,
            deltas_fit(s),
            window_credits(s, s.len() as int, start, end) <= i64::MAX,
            credits == window_credits(s, i as int, start, end),
            keys@.map_values(|x: String| x@) == dedup_first(window_keys(s, i as int, start, end)),
            latest == window_latest(s, i as int, start, end),
        decreases samples.len() - i,
    {
        let sample = &samples[i];
        let delta: i64 = if i > 0 && str_eq(samples[i - 1].key_id.as_str(), sample.key_id.as_str()) {
            assert(fits(s[i - 1].quota_remaining - s[i as int].quota_remaining));
            let d = samples[i - 1].quota_remaining - sample.quota_remaining;
            if d > 0 { d } else { 0 }
        } else {
            0
        };
        assert(delta == sample_delta(s, i as int));
        if start <= sample.captured_at && sample.captured_at < end {
            proof {
                lemma_window_credits_mono(s, i + 1, s.len() as int, start, end);
            }
            credits = credits + delta;
            let ghost before = keys@.map_values(|x: String| x@);
            let ghost wk = window_keys(s, i + 1, start, end);
            assert(wk == window_keys(s, i as int, start, end).push(sample.key_id@));
            assert(wk.drop_last() =~= window_keys(s, i as int, start, end));
            if !contains_key(&keys, sample.key_id.as_str()) {
                keys.push(sample.key_id.clone());
                assert(keys@.map_values(|x: String| x@) =~= before.push(sample.key_id@));
            }
            latest = match latest {
                Some(t) => if sample.captured_at > t { Some(sample.captured_at) } else { Some(t) },
                None => Some(sample.captured_at),
            };
        }
        i = i + 1;
    }
    proof {
        lemma_window_keys_len(s, s.len() as int, start, end);
        lemma_dedup_first_len(window_keys(s, s.len() as int, start, end));
        lemma_window_credits_mono(s, 0, s.len() as int, start, end);
    }
    assert(keys@.map_values(|x: String| x@).len() == keys.len());
    QuotaChargeAccumulator {
        upstream_actual_credits: credits,
        sampled_key_count: keys.len() as i64,
        stale_key_count,
        latest_sync_at: latest,
    }
}

/// The times a summary reads its key samples and staleness with: samples
/// from the earlier of yesterday's start and the quota month's start; a key
/// used in the last two hours is stale after fifteen minutes without a sync,
/// any other after a day; "now" is the last second of today's window.
pub open spec fn probe_times_spec(yesterday_start: i64, month_quota_charge_start: i64, today_end: i64) -> (i64, i64, i64, i64) {
    let now = crate::num::sat_sub(today_end as int, 1);
    (
        if yesterday_start <= month_quota_charge_start { yesterday_start } else { month_quota_charge_start },
        crate::num::sat_sub(now, 7200) as i64,
        crate::num::sat_sub(now, 900) as i64,
        crate::num::sat_sub(now, 86400) as i64,
    )
}

/// The sample start and staleness thresholds of a summary.
pub fn summary_probe_times(yesterday_start: i64, month_quota_charge_start: i64, today_end: i64) -> (r: (i64, i64, i64, i64))
    ensures
        r == probe_times_spec(yesterday_start, month_quota_charge_start, today_end),
{
    let sample_window_start = if yesterday_start <= month_quota_charge_start { yesterday_start } else { month_quota_charge_start };
    let now_ts = crate::num::saturating_sub_i64(today_end, 1);
    (
        sample_window_start,
        crate::num::saturating_sub_i64(now_ts, 7200),
        crate::num::saturating_sub_i64(now_ts, 900),
        crate::num::saturating_sub_i64(now_ts, 86400),
    )
}

/// Away from the ends of `i64`'s range, a summary's "now" is the second before
/// today's window ends; samples start at the earlier of yesterday's start and
/// the quota month's start; keys used within the two hours before now count as
/// recently used, and they go stale after fifteen minutes without a sync,
/// other keys after a day.
pub proof fn lemma_probe_times_exact(yesterday_start: i64, month_quota_charge_start: i64, today_end: i64)
    requires
        i64::MIN + 86401 <= today_end,
    ensures
        probe_times_spec(yesterday_start, month_quota_charge_start, today_end).0 <= yesterday_start,
        probe_times_spec(yesterday_start, month_quota_charge_start, today_end).0 <= month_quota_charge_start,
        probe_times_spec(yesterday_start, month_quota_charge_start, today_end).0 == yesterday_start
            || probe_times_spec(yesterday_start, month_quota_charge_start, today_end).0 == month_quota_charge_start,
        probe_times_spec(yesterday_start, month_quota_charge_start, today_end).1 == today_end - 1 - 7200,
        probe_times_spec(yesterday_start, month_quota_charge_start, today_end).2 == today_end - 1 - 900,
        probe_times_spec(yesterday_start, month_quota_charge_start, today_end).3 == today_end - 1 - 86400,
{
}

} // verus!
