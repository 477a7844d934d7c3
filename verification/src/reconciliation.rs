//! Upstream usage reconciliation: when shadow settlement may run, and how a
//! retry reason is filed.

use vstd::prelude::*;
use crate::error::ProxyError;
use crate::num::{sat_add, sat_sub, saturating_add_i64, saturating_sub_i64};
use crate::text::{
    cat, chars_of, concat_all, contains, find_chars, find_from, lemma_find_from_fits, str_contains, str_eq, string_of_range,
};

verus! {

pub const RECONCILIATION_RETRY_REASON_LOCAL_USAGE_RATE_LIMIT: &'static str = "local_usage_rate_limit";
pub const RECONCILIATION_RETRY_REASON_UPSTREAM_429: &'static str = "upstream429";
pub const RECONCILIATION_RETRY_REASON_OTHER: &'static str = "other";

/// How the upstream project id of a request is chosen.
#[derive(PartialEq, Eq, Structural, Clone, Copy, Debug)]
pub enum UpstreamProjectIdMode {
    /// Taken from the access token.
    AccessToken,
    /// Any other way.
    Other,
}

/// The system settings that reconciliation reads.
pub struct SystemSettings {
    pub upstream_project_id_mode: UpstreamProjectIdMode,
    pub api_rebalance_enabled: bool,
    pub rebalance_mcp_enabled: bool,
}

/// Whether shadow reconciliation may run: project ids come from access
/// tokens and both API and MCP rebalancing are on.
pub open spec fn shadow_ready_spec(s: SystemSettings) -> bool {
    s.upstream_project_id_mode == UpstreamProjectIdMode::AccessToken && s.api_rebalance_enabled && s.rebalance_mcp_enabled
}

/// Whether shadow reconciliation may run.
pub fn upstream_reconciliation_shadow_ready(settings: &SystemSettings) -> (r: bool)
    ensures
        r == shadow_ready_spec(*settings),
{
    settings.upstream_project_id_mode == UpstreamProjectIdMode::AccessToken && settings.api_rebalance_enabled
        && settings.rebalance_mcp_enabled
}

/// The class of a retry reason: the local rate limit, an upstream 429 (named
/// so, or a message reporting one), or anything else.
pub open spec fn retry_reason_class(reason: Option<Seq<char>>) -> Seq<char> {
    match reason {
        None => RECONCILIATION_RETRY_REASON_OTHER@,
        Some(r) => if r == RECONCILIATION_RETRY_REASON_LOCAL_USAGE_RATE_LIMIT@ {
            RECONCILIATION_RETRY_REASON_LOCAL_USAGE_RATE_LIMIT@
        } else if r == RECONCILIATION_RETRY_REASON_UPSTREAM_429@ || contains(r, "usage http error 429"@)
            || contains(r, "429 Too Many Requests"@) {
            RECONCILIATION_RETRY_REASON_UPSTREAM_429@
        } else {
            RECONCILIATION_RETRY_REASON_OTHER@
        },
    }
}

/// Files a retry reason under one of the three classes.
pub fn classify_reconciliation_retry_reason(reason: Option<&str>) -> (r: &'static str)
    ensures
        r@ == retry_reason_class(match reason { Some(s) => Some(s@), None => None }),
{
    let reason = match reason {
        Some(r) => r,
        None => return RECONCILIATION_RETRY_REASON_OTHER,
    };
    if str_eq(reason, RECONCILIATION_RETRY_REASON_LOCAL_USAGE_RATE_LIMIT) {
        return RECONCILIATION_RETRY_REASON_LOCAL_USAGE_RATE_LIMIT;
    }
    if str_eq(reason, RECONCILIATION_RETRY_REASON_UPSTREAM_429) {
        return RECONCILIATION_RETRY_REASON_UPSTREAM_429;
    }
    if str_contains(reason, "usage http error 429") || str_contains(reason, "429 Too Many Requests") {
        return RECONCILIATION_RETRY_REASON_UPSTREAM_429;
    }
    RECONCILIATION_RETRY_REASON_OTHER
}

/// Classifying a class name gives the class back.
pub proof fn lemma_retry_reason_class_stable(reason: Option<Seq<char>>)
    ensures
        retry_reason_class(Some(retry_reason_class(reason))) == retry_reason_class(reason),
{
    reveal_strlit("other");
    reveal_strlit("upstream429");
    reveal_strlit("local_usage_rate_limit");
    let c = retry_reason_class(reason);
    assert(RECONCILIATION_RETRY_REASON_OTHER@.len() == 5);
    assert(RECONCILIATION_RETRY_REASON_UPSTREAM_429@.len() == 11);
    assert(RECONCILIATION_RETRY_REASON_LOCAL_USAGE_RATE_LIMIT@.len() == 22);
    if c == RECONCILIATION_RETRY_REASON_OTHER@ {
        assert(c != RECONCILIATION_RETRY_REASON_LOCAL_USAGE_RATE_LIMIT@);
        assert(c != RECONCILIATION_RETRY_REASON_UPSTREAM_429@);
        assert(!contains(c, "usage http error 429"@)) by {
            reveal_strlit("usage http error 429");
            if contains(c, "usage http error 429"@) {
                crate::text::lemma_contains_len(c, "usage http error 429"@);
            }
        }
        assert(!contains(c, "429 Too Many Requests"@)) by {
            reveal_strlit("429 Too Many Requests");
            if contains(c, "429 Too Many Requests"@) {
                crate::text::lemma_contains_len(c, "429 Too Many Requests"@);
            }
        }
    } else if c == RECONCILIATION_RETRY_REASON_UPSTREAM_429@ {
        assert(c != RECONCILIATION_RETRY_REASON_LOCAL_USAGE_RATE_LIMIT@);
    }
}

pub const RECONCILIATION_DEGRADED_REASON: &'static str = "research_timeout_24h";
pub const SECS_PER_MINUTE: i64 = 60;

/// What a settlement of one token and billing period records.
pub struct ReconciliationSettlement {
    /// `v1:<token>:<period>`, the key under which a settlement is recorded once.
    pub settlement_key: String,
    /// Upstream usage minus locally billed credits, saturating.
    pub delta_credits: i64,
    /// One minute before the period's end, saturating: when the adjustment is dated.
    pub attributed_at: i64,
    /// The start of the minute holding `attributed_at`.
    pub minute_bucket: i64,
    /// `degraded` or `settled`.
    pub status: &'static str,
    /// Why a settlement is degraded, if it is.
    pub degraded_reason: Option<&'static str>,
}

/// The start of the minute holding `t`.
pub open spec fn minute_start(t: int) -> int {
    t - t % 60
}

/// The settlement key of a token and billing period.
pub open spec fn settlement_key_spec(token_id: Seq<char>, period_code: Seq<char>) -> Seq<char> {
    "v1:"@ + token_id + ":"@ + period_code
}

/// Computes what settling a token's billing period records: its key, the
/// credits to add (upstream usage minus what was billed locally), when the
/// adjustment is dated and the minute holding that instant, and whether the
/// settlement is degraded (the upstream research timed out).
pub fn upstream_reconciliation_settlement(
    token_id: &str,
    period_code: &str,
    period_end: i64,
    degraded: bool,
    upstream_usage: i64,
    local_billed_credits: i64,
) -> (r: ReconciliationSettlement)
    requires
        minute_start(sat_sub(period_end as int, 60)) >= i64::MIN,
    ensures
        r.settlement_key@ == settlement_key_spec(token_id@, period_code@),
        r.delta_credits as int == sat_sub(upstream_usage as int, local_billed_credits as int),
        r.attributed_at as int == sat_sub(period_end as int, 60),
        r.minute_bucket as int == minute_start(r.attributed_at as int),
        r.minute_bucket <= r.attributed_at < r.minute_bucket + 60,
        r.status@ == (if degraded { "degraded"@ } else { "settled"@ }),
        r.degraded_reason == (if degraded { Some(RECONCILIATION_DEGRADED_REASON) } else { None::<&'static str> }),
{
    let key = cat(&vec!["v1:", token_id, ":", period_code]);
    proof {
        reveal_with_fuel(concat_all, 5);
    }
    let delta = saturating_sub_i64(upstream_usage, local_billed_credits);
    let attributed_at = saturating_sub_i64(period_end, SECS_PER_MINUTE);
    let rem = attributed_at % SECS_PER_MINUTE;
    let rem = if rem < 0 { rem + SECS_PER_MINUTE } else { rem };
    let minute_bucket = attributed_at - rem;
    ReconciliationSettlement {
        settlement_key: key,
        delta_credits: delta,
        attributed_at,
        minute_bucket,
        status: if degraded { "degraded" } else { "settled" },
        degraded_reason: if degraded { Some(RECONCILIATION_DEGRADED_REASON) } else { None },
    }
}

/// Whose usage a settlement adjusts.
#[derive(PartialEq, Eq, Structural, Clone, Copy, Debug)]
pub enum ReconciliationSubjectKind {
    Account,
    Token,
}

/// Where a settlement writes: the subject's id, its usage-bucket table and
/// id column, and its monthly quota table and id column.
pub struct ReconciliationSubjectTables {
    pub kind: ReconciliationSubjectKind,
    pub subject_id: String,
    pub usage_table: &'static str,
    pub id_column: &'static str,
    pub monthly_table: &'static str,
    pub monthly_id_column: &'static str,
}

/// `s.split_once(':')`.
pub open spec fn split_once_colon(s: Seq<char>) -> Option<(Seq<char>, Seq<char>)> {
    match find_from(s, seq![':'], 0) {
        Some(i) => Some((s.subrange(0, i), s.subrange(i + 1, s.len() as int))),
        None => None,
    }
}

/// The tables of a subject kind.
pub open spec fn subject_tables_spec(kind: ReconciliationSubjectKind) -> (Seq<char>, Seq<char>, Seq<char>, Seq<char>) {
    match kind {
        ReconciliationSubjectKind::Account => ("account_usage_buckets"@, "user_id"@, "account_monthly_quota"@, "user_id"@),
        ReconciliationSubjectKind::Token => ("token_usage_buckets"@, "token_id"@, "auth_token_quota"@, "token_id"@),
    }
}

/// Reads a billing subject `kind:id`: an account or a token subject gives its
/// tables; a subject without `:` is invalid; another kind is unsupported.
pub fn reconciliation_subject_tables(billing_subject: &str) -> (r: Result<ReconciliationSubjectTables, ProxyError>)
    ensures
        match split_once_colon(billing_subject@) {
            None => r matches Err(ProxyError::Other(m)) && m@ == "invalid reconciliation billing subject"@,
            Some((kind, id)) => if kind == "account"@ || kind == "token"@ {
                r matches Ok(t) && t.subject_id@ == id
                    && t.kind == (if kind == "account"@ { ReconciliationSubjectKind::Account } else { ReconciliationSubjectKind::Token })
                    && (t.usage_table@, t.id_column@, t.monthly_table@, t.monthly_id_column@) == subject_tables_spec(t.kind)
            } else {
                r matches Err(ProxyError::Other(m)) && m@ == "unsupported reconciliation billing subject"@
            },
        },
{
    let chars = chars_of(billing_subject);
    let n = chars.len();
    let colon = vec![':'];
    proof {
        assert(colon@ =~= seq![':']);
        lemma_find_from_fits(chars@, colon@, 0);
    }
    let pos = match find_chars(&chars, &colon) {
        Some(p) => {
            proof {
                assert(find_from(chars@, colon@, 0) == Some(p as int));
                assert(colon@.len() == 1);
                assert(p + 1 <= chars@.len());
            }
            p
        },
        None => {
            return Err(ProxyError::Other(String::from_str("invalid reconciliation billing subject")));
        }
    };
    let kind = string_of_range(&chars, 0, pos);
    let subject_id = string_of_range(&chars, pos + 1, n);
    if str_eq(kind.as_str(), "account") {
        Ok(ReconciliationSubjectTables {
            kind: ReconciliationSubjectKind::Account,
            subject_id,
            usage_table: "account_usage_buckets",
            id_column: "user_id",
            monthly_table: "account_monthly_quota",
            monthly_id_column: "user_id",
        })
    } else if str_eq(kind.as_str(), "token") {
        Ok(ReconciliationSubjectTables {
            kind: ReconciliationSubjectKind::Token,
            subject_id,
            usage_table: "token_usage_buckets",
            id_column: "token_id",
            monthly_table: "auth_token_quota",
            monthly_id_column: "token_id",
        })
    } else {
        Err(ProxyError::Other(String::from_str("unsupported reconciliation billing subject")))
    }
}

/// The width of a usage bucket.
#[derive(PartialEq, Eq, Structural, Clone, Copy, Debug)]
pub enum UsageBucketGranularity {
    Minute,
    Day,
}

/// The usage buckets a settlement adjusts: the minute bucket, only when the
/// adjustment falls on the current local day, then the local day bucket.
pub fn reconciliation_quota_buckets(minute_bucket: i64, day_bucket: i64, same_local_day: bool) -> (r: Vec<(i64, UsageBucketGranularity)>)
    ensures
        r@ == (if same_local_day {
            seq![(minute_bucket, UsageBucketGranularity::Minute), (day_bucket, UsageBucketGranularity::Day)]
        } else {
            seq![(day_bucket, UsageBucketGranularity::Day)]
        }),
{
    let mut buckets: Vec<(i64, UsageBucketGranularity)> = Vec::new();
    if same_local_day {
        buckets.push((minute_bucket, UsageBucketGranularity::Minute));
    }
    buckets.push((day_bucket, UsageBucketGranularity::Day));
    buckets
}

/// How many settlements wait on a retry, by the class of their reason.
#[derive(Clone, Copy, Debug, PartialEq, Eq, Structural)]
pub struct UpstreamReconciliationRetryBuckets {
    pub upstream_429: i64,
    pub local_usage_rate_limit: i64,
    pub other: i64,
}

/// The views of counted reasons.
pub open spec fn reason_rows(rows: Seq<(Option<String>, i64)>) -> Seq<(Option<Seq<char>>, i64)> {
    rows.map_values(|r: (Option<String>, i64)| (match r.0 { Some(s) => Some(s@), None => None }, r.1))
}

/// The total count of the rows whose reason falls in `class`.
pub open spec fn class_total(rows: Seq<(Option<Seq<char>>, i64)>, class: Seq<char>) -> int
    decreases rows.len(),
{
    if rows.len() == 0 {
        0
    } else {
        class_total(rows.drop_last(), class) + if retry_reason_class(rows.last().0) == class { rows.last().1 as int } else { 0 }
    }
}

/// Whether every running total of every class stays within `i64`.
pub open spec fn class_totals_fit(rows: Seq<(Option<Seq<char>>, i64)>) -> bool {
    forall|k: int| 0 <= k <= rows.len() ==> {
        &&& i64::MIN <= #[trigger] class_total(rows.take(k), RECONCILIATION_RETRY_REASON_UPSTREAM_429@) <= i64::MAX
        &&& i64::MIN <= class_total(rows.take(k), RECONCILIATION_RETRY_REASON_LOCAL_USAGE_RATE_LIMIT@) <= i64::MAX
        &&& i64::MIN <= class_total(rows.take(k), RECONCILIATION_RETRY_REASON_OTHER@) <= i64::MAX
    }
}

/// Totals the settlements waiting on a retry (counted per stored reason) by
/// the class of their reason; `None` when a running total leaves `i64`.
pub fn reconciliation_retry_buckets(rows: &Vec<(Option<String>, i64)>) -> (r: Option<UpstreamReconciliationRetryBuckets>)
    ensures
        r is Some <==> class_totals_fit(reason_rows(rows@)),
        r matches Some(b) ==> {
            &&& b.upstream_429 as int == class_total(reason_rows(rows@), RECONCILIATION_RETRY_REASON_UPSTREAM_429@)
            &&& b.local_usage_rate_limit as int == class_total(reason_rows(rows@), RECONCILIATION_RETRY_REASON_LOCAL_USAGE_RATE_LIMIT@)
            &&& b.other as int == class_total(reason_rows(rows@), RECONCILIATION_RETRY_REASON_OTHER@)
        },
{
    let ghost m = reason_rows(rows@);
    let ghost u = RECONCILIATION_RETRY_REASON_UPSTREAM_429@;
    let ghost l = RECONCILIATION_RETRY_REASON_LOCAL_USAGE_RATE_LIMIT@;
    let ghost o = RECONCILIATION_RETRY_REASON_OTHER@;
    proof {
        reveal_strlit("other");
        reveal_strlit("upstream429");
        reveal_strlit("local_usage_rate_limit");
        assert(u.len() == 11 && l.len() == 22 && o.len() == 5);
    }
    let mut b = UpstreamReconciliationRetryBuckets { upstream_429: 0, local_usage_rate_limit: 0, other: 0 };
    let mut i: usize = 0;
    while i < rows.len()
        invariant
            i <= rows.len(),
            m == reason_rows(rows@),
            u == RECONCILIATION_RETRY_REASON_UPSTREAM_429@,
            l == RECONCILIATION_RETRY_REASON_LOCAL_USAGE_RATE_LIMIT@,
            o == RECONCILIATION_RETRY_REASON_OTHER@,
            u != l && u != o && l != o,
            b.upstream_429 as int == class_total(m.take(i as int), u),
            b.local_usage_rate_limit as int == class_total(m.take(i as int), l),
            b.other as int == class_total(m.take(i as int), o),
            forall|k: int| 0 <= k <= i ==> {
                &&& i64::MIN <= #[trigger] class_total(m.take(k), u) <= i64::MAX
                &&& i64::MIN <= class_total(m.take(k), l) <= i64::MAX
                &&& i64::MIN <= class_total(m.take(k), o) <= i64::MAX
            },
        decreases rows.len() - i,
    {
        let reason = match &rows[i].0 {
            Some(s) => Some(s.as_str()),
            None => None,
        };
        let class = classify_reconciliation_retry_reason(reason);
        let count = rows[i].1;
        proof {
            assert(m.take(i + 1).drop_last() =~= m.take(i as int));
            assert(m.take(i + 1).last() == m[i as int]);
            assert(m[i as int].0 == match reason { Some(s) => Some(s@), None => None::<Seq<char>> });
        }
        if str_eq(class, RECONCILIATION_RETRY_REASON_LOCAL_USAGE_RATE_LIMIT) {
            match b.local_usage_rate_limit.checked_add(count) {
                Some(v) => b.local_usage_rate_limit = v,
                None => {
                    proof {
                        let k = i + 1;
                        assert(class_total(m.take(k), l) == b.local_usage_rate_limit + count);
                        if class_totals_fit(m) {
                            assert(0 <= k <= m.len());
                            assert(i64::MIN <= class_total(m.take(k), u) <= i64::MAX);
                            assert(i64::MIN <= class_total(m.take(k), l) <= i64::MAX);
                        }
                    }
                    return None;
                },
            }
        } else if str_eq(class, RECONCILIATION_RETRY_REASON_UPSTREAM_429) {
            match b.upstream_429.checked_add(count) {
                Some(v) => b.upstream_429 = v,
                None => {
                    proof {
                        let k = i + 1;
                        assert(class_total(m.take(k), u) == b.upstream_429 + count);
                        assert(class_total(m.take(k), u) == class_total(m.take(k), u));
                    }
                    return None;
                },
            }
        } else {
            proof {
                assert(retry_reason_class(m[i as int].0) == o);
            }
            match b.other.checked_add(count) {
                Some(v) => b.other = v,
                None => {
                    proof {
                        let k = i + 1;
                        assert(class_total(m.take(k), o) == b.other + count);
                        assert(class_total(m.take(k), u) == class_total(m.take(k), u));
                    }
                    return None;
                },
            }
        }
        i = i + 1;
    }
    proof { assert(m.take(rows.len() as int) =~= m); }
    Some(b)
}

/// Whether a token's billing period is settled now, and whether degraded:
/// a period with upstream research still open waits, unless a day has
/// passed since its end, when it is settled degraded. `None` means it waits.
pub fn reconciliation_candidate_degraded(now: i64, period_end: i64, pending_research: i64) -> (r: Option<bool>)
    ensures
        r == (if pending_research > 0 {
            if now >= sat_add(period_end as int, 86400) { Some(true) } else { None }
        } else {
            Some(false)
        }),
{
    let degraded = pending_research > 0 && now >= saturating_add_i64(period_end, 86400);
    if pending_research > 0 && !degraded {
        None
    } else {
        Some(degraded)
    }
}

/// The most upstream usage reads one key may make in ten minutes.
pub const UPSTREAM_USAGE_ATTEMPTS_PER_WINDOW: i64 = 10;

/// Whether a key may read its upstream usage now, given how many reads it
/// made in the last ten minutes and when the oldest of them was: under ten
/// reads it may; otherwise it must wait until ten minutes after the oldest.
pub fn upstream_usage_attempt_decision(recent_attempts: i64, oldest_attempt_at: i64) -> (r: Result<(), i64>)
    ensures
        recent_attempts < 10 ==> r is Ok,
        recent_attempts >= 10 ==> r == Err::<(), i64>(sat_add(oldest_attempt_at as int, 600) as i64),
{
    if recent_attempts >= UPSTREAM_USAGE_ATTEMPTS_PER_WINDOW {
        Err(saturating_add_i64(oldest_attempt_at, 600))
    } else {
        Ok(())
    }
}

} // verus!
