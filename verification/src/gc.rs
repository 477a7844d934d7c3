//! Request-log garbage collection: how a stored request is valued, and when
//! the body-retention scan restarts.

use vstd::prelude::*;
use vstd::string::*;
use crate::clock::{day_secs, local_day_start_after_days};
use crate::text::{
    chars_of, int_decimal, lemma_parse_int_decimal, lemma_split_on_append, lemma_split_on_sep,
    parse_i64, parse_i64_chars, push_i64_decimal, split_chars, split_on, str_eq, trim, trim_string,
};

verus! {

/// How valuable a logged request is.
#[derive(PartialEq, Eq, Structural, Clone, Copy, Debug)]
pub enum RequestValueBucket {
    Valuable,
    Other,
    Unknown,
}

/// The value bucket of a stored request: a batch whose body was dropped is
/// valuable exactly when it counted against business quota; any batch that
/// did not count is other; every other request gets `by_kind_and_body`, the
/// bucket the request-kind catalogue gives its trimmed kind and body.
pub open spec fn stored_bucket_spec(kind: Seq<char>, has_body: bool, counts_business_quota: bool, by_kind_and_body: RequestValueBucket) -> RequestValueBucket {
    let k = trim(kind);
    if k == "mcp:batch"@ && !has_body {
        if counts_business_quota { RequestValueBucket::Valuable } else { RequestValueBucket::Other }
    } else if k == "mcp:batch"@ && !counts_business_quota {
        RequestValueBucket::Other
    } else {
        by_kind_and_body
    }
}

/// The value bucket of a stored request.
pub fn request_value_bucket_for_stored_request_log(
    request_kind_key: &str,
    body: Option<&[u8]>,
    counts_business_quota: bool,
    by_kind_and_body: RequestValueBucket,
) -> (r: RequestValueBucket)
    ensures
        r == stored_bucket_spec(request_kind_key@, body is Some, counts_business_quota, by_kind_and_body),
{
    let normalized = trim_string(request_kind_key);
    let batch = str_eq(normalized.as_str(), "mcp:batch");
    if batch && body.is_none() {
        if counts_business_quota { RequestValueBucket::Valuable } else { RequestValueBucket::Other }
    } else if batch && !counts_business_quota {
        RequestValueBucket::Other
    } else {
        by_kind_and_body
    }
}

/// The number of local days a request body is kept: the retention setting
/// clamped to `1..=i32::MAX`.
pub open spec fn retention_shift_days_spec(retention_days: i64) -> i32 {
    if retention_days > i32::MAX { i32::MAX } else if retention_days < 1 { 1 } else { retention_days as i32 }
}

/// The number of local days a request body is kept.
pub fn retention_shift_days(retention_days: i64) -> (r: i32)
    ensures
        r == retention_shift_days_spec(retention_days),
{
    if retention_days > 2147483647 {
        2147483647
    } else if retention_days < 1 {
        1
    } else {
        retention_days as i32
    }
}

/// When the body-retention scan restarts: `now` when retention is off, else
/// the later of `now` and `retained_until`, the start of the local day that
/// lies `retention_shift_days(retention_days)` days after the day of the
/// last scanned request.
pub fn request_log_body_cursor_restart_at(retention_days: i64, now: i64, retained_until: i64) -> (r: i64)
    ensures
        r == if retention_days <= 0 { now } else if retained_until >= now { retained_until } else { now },
        r >= now,
{
    if retention_days <= 0 {
        return now;
    }
    if retained_until >= now { retained_until } else { now }
}

/// When the body-retention scan restarts after stopping at a request
/// created at `created_at`: `now` when retention is off; else the start of
/// the local day `retention_shift_days(retention_days)` days after that
/// request's local day, but never before `now` (and `now` when chrono cannot
/// find that day). The local days depend on the machine's time zone; what
/// holds in every zone is that a restart later than `now` lies within three
/// days before and two days after the request's time moved on by those days.
pub fn request_log_body_restart_at(created_at: i64, retention_days: i64, now: i64) -> (r: i64)
    ensures
        r >= now,
        retention_days <= 0 ==> r == now,
        r > now ==> ({
            let shifted = created_at + retention_shift_days_spec(retention_days) * day_secs();
            shifted - 3 * day_secs() < r < shifted + 2 * day_secs()
        }),
{
    if retention_days <= 0 {
        return now;
    }
    let days = retention_shift_days(retention_days);
    match local_day_start_after_days(created_at, days as u32) {
        Some(start) => request_log_body_cursor_restart_at(retention_days, now, start),
        None => now,
    }
}

/// Whether a request's body is past retention: always when retention is
/// off, else when it was created before `threshold`, the instant from which
/// bodies are kept.
pub fn request_log_body_is_expired(created_at: i64, retention_days: i64, threshold: i64) -> (r: bool)
    ensures
        r == (retention_days <= 0 || created_at < threshold),
{
    retention_days <= 0 || created_at < threshold
}

pub const REQUEST_LOG_BODY_GC_SCAN_MULTIPLIER: i64 = 64;

/// Where the body-retention scan stopped: the last request scanned, and when
/// to start over from the beginning.
#[derive(Clone, Copy, Debug, PartialEq, Eq, Structural)]
pub struct RequestLogBodyGcCursor {
    pub created_at: i64,
    pub id: i64,
    pub restart_at: Option<i64>,
}

/// The meta-table text of a cursor: `created_at:id[:restart_at]`.
pub open spec fn cursor_value_spec(c: RequestLogBodyGcCursor) -> Seq<char> {
    match c.restart_at {
        Some(r) => int_decimal(c.created_at as int) + ":"@ + int_decimal(c.id as int) + ":"@ + int_decimal(r as int),
        None => int_decimal(c.created_at as int) + ":"@ + int_decimal(c.id as int),
    }
}

/// The meta-table text of a cursor.
pub fn request_log_body_gc_cursor_value(cursor: RequestLogBodyGcCursor) -> (r: String)
    ensures
        r@ == cursor_value_spec(cursor),
{
    let mut r = String::new();
    push_i64_decimal(&mut r, cursor.created_at);
    r.append(":");
    push_i64_decimal(&mut r, cursor.id);
    if let Some(restart_at) = cursor.restart_at {
        r.append(":");
        push_i64_decimal(&mut r, restart_at);
    }
    proof {
        reveal_strlit(":");
    }
    r
}

/// The cursor a meta-table text records: its first two `:`-separated pieces
/// are the time and id of the last request scanned, and a third, when it
/// parses, the restart time; `None` when the first two do not parse.
pub open spec fn parse_cursor_spec(v: Seq<char>) -> Option<RequestLogBodyGcCursor> {
    let parts = split_on(v, ':');
    if parts.len() < 2 {
        None
    } else {
        match (parse_i64(parts[0]), parse_i64(parts[1])) {
            (Some(created_at), Some(id)) => Some(RequestLogBodyGcCursor {
                created_at: created_at as i64,
                id: id as i64,
                restart_at: if parts.len() >= 3 {
                    match parse_i64(parts[2]) { Some(r) => Some(r as i64), None => None }
                } else {
                    None
                },
            }),
            _ => None,
        }
    }
}

fn parse_piece(parts: &Vec<Vec<char>>, i: usize) -> (r: Option<i64>)
    requires
        i < parts.len(),
    ensures
        match r {
            Some(v) => parse_i64(parts@[i as int]@) == Some(v as int),
            None => parse_i64(parts@[i as int]@) is None,
        },
{
    let r = parse_i64_chars(&parts[i], 0, parts[i].len());
    assert(parts@[i as int]@.subrange(0, parts@[i as int]@.len() as int) =~= parts@[i as int]@);
    r
}

/// The cursor a meta-table text records, if it records one.
pub fn parse_request_log_body_gc_cursor(value: &str) -> (r: Option<RequestLogBodyGcCursor>)
    ensures
        r == parse_cursor_spec(value@),
{
    let chars = chars_of(value);
    let parts = split_chars(&chars, ':');
    let ghost pv = parts@.map_values(|v: Vec<char>| v@);
    assert(pv == split_on(value@, ':'));
    if parts.len() < 2 {
        return None;
    }
    assert(pv[0] == parts@[0]@);
    assert(pv[1] == parts@[1]@);
    let restart_at = if parts.len() >= 3 {
        assert(pv[2] == parts@[2]@);
        parse_piece(&parts, 2)
    } else {
        None
    };
    let created_at = match parse_piece(&parts, 0) {
        Some(v) => v,
        None => return None,
    };
    let id = match parse_piece(&parts, 1) {
        Some(v) => v,
        None => return None,
    };
    Some(RequestLogBodyGcCursor { created_at, id, restart_at })
}

/// Reading back the text of a cursor gives the cursor.
pub proof fn lemma_cursor_round_trip(c: RequestLogBodyGcCursor)
    ensures
        parse_cursor_spec(cursor_value_spec(c)) == Some(c),
{
    reveal_strlit(":");
    let a = int_decimal(c.created_at as int);
    let b = int_decimal(c.id as int);
    lemma_parse_int_decimal(c.created_at as int);
    lemma_parse_int_decimal(c.id as int);
    lemma_split_on_append(Seq::empty(), a, ':');
    assert(Seq::<char>::empty() + a =~= a);
    assert(split_on(Seq::<char>::empty(), ':') =~= seq![Seq::<char>::empty()]);
    assert(split_on(a, ':') =~= seq![a]);
    assert(a + ":"@ =~= a.push(':'));
    lemma_split_on_sep(a, ':');
    lemma_split_on_append(a + ":"@, b, ':');
    assert(split_on(a + ":"@ + b, ':') =~= seq![a, b]);
    match c.restart_at {
        Some(r) => {
            let t = int_decimal(r as int);
            lemma_parse_int_decimal(r as int);
            let v = a + ":"@ + b;
            assert(v + ":"@ =~= v.push(':'));
            lemma_split_on_sep(v, ':');
            lemma_split_on_append(v + ":"@, t, ':');
            assert(cursor_value_spec(c) =~= v + ":"@ + t);
            assert(split_on(cursor_value_spec(c), ':') =~= seq![a, b, t]);
        }
        None => {}
    }
}

/// The cursor a scan starts from: none once its restart time has come.
pub open spec fn start_cursor_spec(c: Option<RequestLogBodyGcCursor>, now: i64) -> Option<RequestLogBodyGcCursor> {
    match c {
        Some(x) => if x.restart_at matches Some(r) && r <= now { None } else { c },
        None => None,
    }
}

/// The cursor a scan starts from.
pub fn request_log_body_gc_start_cursor(cursor: Option<RequestLogBodyGcCursor>, now: i64) -> (r: Option<RequestLogBodyGcCursor>)
    ensures
        r == start_cursor_spec(cursor, now),
{
    match cursor {
        Some(c) => match c.restart_at {
            Some(restart_at) => if restart_at <= now { None } else { cursor },
            None => cursor,
        },
        None => None,
    }
}

/// How many requests one scan may look at: 64 per body it may clean,
/// saturating.
pub fn request_log_body_gc_scan_limit(batch_size: i64) -> (r: i64)
    ensures
        r as int == crate::num::sat_mul(batch_size as int, REQUEST_LOG_BODY_GC_SCAN_MULTIPLIER as int),
{
    crate::num::saturating_mul_i64(batch_size, REQUEST_LOG_BODY_GC_SCAN_MULTIPLIER)
}

/// The earlier of the restart time so far and a retained request's own.
pub fn merge_restart_at(current: Option<i64>, candidate: i64) -> (r: Option<i64>)
    ensures
        r == Some(match current { Some(c) => if c <= candidate { c } else { candidate }, None => candidate }),
{
    match current {
        Some(c) => Some(if c <= candidate { c } else { candidate }),
        None => Some(candidate),
    }
}

/// A body-retention scan in progress: bodies cleaned and requests scanned
/// so far, the last request scanned, the earliest restart time of the
/// requests kept, and whether it stopped with work left.
#[derive(Clone, Copy, Debug)]
pub struct BodyGcScan {
    pub cleaned: i64,
    pub scanned: i64,
    pub after: Option<(i64, i64)>,
    pub restart_at: Option<i64>,
    pub has_more: bool,
}

/// What became of one scanned request: its body was kept until
/// `restart_at`, or clearing it affected `rows` rows.
#[derive(Clone, Copy, Debug, PartialEq, Eq, Structural)]
pub enum BodyGcCandidate {
    Kept { restart_at: i64 },
    Cleaned { rows: i64 },
}

impl BodyGcScan {
    /// A scan starting from the stored cursor (already reset when due).
    pub fn start(cursor: Option<RequestLogBodyGcCursor>) -> (r: BodyGcScan)
        ensures
            r.cleaned == 0,
            r.scanned == 0,
            !r.has_more,
            r.after == match cursor { Some(c) => Some((c.created_at, c.id)), None => None::<(i64, i64)> },
            r.restart_at == match cursor { Some(c) => c.restart_at, None => None::<i64> },
    {
        match cursor {
            Some(c) => BodyGcScan { cleaned: 0, scanned: 0, after: Some((c.created_at, c.id)), restart_at: c.restart_at, has_more: false },
            None => BodyGcScan { cleaned: 0, scanned: 0, after: None, restart_at: None, has_more: false },
        }
    }

    /// Whether to fetch another page of candidates: while fewer than
    /// `batch_size` bodies were cleaned and fewer than `scan_limit` requests
    /// scanned, before the deadline.
    pub fn wants_more(&self, batch_size: i64, scan_limit: i64, deadline_passed: bool) -> (r: bool)
        ensures
            r == (self.cleaned < batch_size && self.scanned < scan_limit && !deadline_passed),
    {
        self.cleaned < batch_size && self.scanned < scan_limit && !deadline_passed
    }

    /// Takes in one scanned request (created at `created_at`, with id
    /// `id`); returns whether to go on with the page. A kept body moves the
    /// restart time earlier when its own is earlier, and stops the scan with
    /// work left once the scan limit or the deadline is reached; a cleaned
    /// one adds the rows it affected, and stops the scan with work left once
    /// the batch is full, or at the scan limit or the deadline.
    pub fn take(&mut self, created_at: i64, id: i64, outcome: BodyGcCandidate, batch_size: i64, scan_limit: i64, deadline_passed: bool) -> (go_on: bool)
        requires
            old(self).scanned < i64::MAX,
            outcome matches BodyGcCandidate::Cleaned { rows } ==> i64::MIN <= old(self).cleaned + rows <= i64::MAX,
        ensures
            final(self).after == Some((created_at, id)),
            final(self).scanned == old(self).scanned + 1,
            match outcome {
                BodyGcCandidate::Kept { restart_at } => {
                    &&& final(self).cleaned == old(self).cleaned
                    &&& final(self).restart_at == Some(match old(self).restart_at {
                        Some(c) => if c <= restart_at { c } else { restart_at },
                        None => restart_at,
                    })
                    &&& go_on == !(final(self).scanned >= scan_limit || deadline_passed)
                },
                BodyGcCandidate::Cleaned { rows } => {
                    &&& final(self).cleaned == old(self).cleaned + rows
                    &&& final(self).restart_at == old(self).restart_at
                    &&& go_on == !(final(self).cleaned >= batch_size || final(self).scanned >= scan_limit || deadline_passed)
                },
            },
            final(self).has_more == (old(self).has_more || !go_on),
    {
        self.after = Some((created_at, id));
        self.scanned = self.scanned + 1;
        let stop = match outcome {
            BodyGcCandidate::Kept { restart_at } => {
                self.restart_at = merge_restart_at(self.restart_at, restart_at);
                self.scanned >= scan_limit || deadline_passed
            }
            BodyGcCandidate::Cleaned { rows } => {
                self.cleaned = self.cleaned + rows;
                self.cleaned >= batch_size || self.scanned >= scan_limit || deadline_passed
            }
        };
        if stop {
            self.has_more = true;
        }
        !stop
    }
}

/// Why a body is cleaned: a retention of zero days, or an expired one.
pub fn request_log_body_cleaned_reason(retention_days: i64) -> (r: &'static str)
    ensures
        r@ == if retention_days <= 0 { "policy_zero"@ } else { "retention_expired"@ },
{
    if retention_days <= 0 { "policy_zero" } else { "retention_expired" }
}

/// What a finished scan does with the cursor.
#[derive(Clone, Copy, Debug, PartialEq, Eq, Structural)]
pub enum BodyGcCursorWrite {
    /// Leaves it alone.
    Keep,
    /// Stores the given cursor, or clears it.
    Store(Option<RequestLogBodyGcCursor>),
}

/// The end of a scan: whether there is more to do, and how the cursor is
/// written. A scan stopped early, or cut off by its deadline after making
/// progress, stores where it stopped; a scan that ran out of requests keeps
/// its restart time if it has one and clears the cursor otherwise.
pub open spec fn finish_scan_spec(has_more: bool, deadline_passed: bool, after: Option<(i64, i64)>, restart_at: Option<i64>)
    -> (bool, BodyGcCursorWrite)
{
    let at = |p: (i64, i64)| RequestLogBodyGcCursor { created_at: p.0, id: p.1, restart_at };
    if has_more {
        (true, BodyGcCursorWrite::Store(match after { Some(p) => Some(at(p)), None => None }))
    } else if deadline_passed && after is Some {
        (true, BodyGcCursorWrite::Store(Some(at(after->0))))
    } else {
        match after {
            Some(p) => if restart_at is Some {
                (false, BodyGcCursorWrite::Store(Some(at(p))))
            } else {
                (false, BodyGcCursorWrite::Store(None))
            },
            None => (false, BodyGcCursorWrite::Keep),
        }
    }
}

/// The end of a scan.
pub fn request_log_body_gc_finish_scan(has_more: bool, deadline_passed: bool, after: Option<(i64, i64)>, restart_at: Option<i64>)
    -> (r: (bool, BodyGcCursorWrite))
    ensures
        r == finish_scan_spec(has_more, deadline_passed, after, restart_at),
{
    if has_more {
        let c = match after {
            Some((created_at, id)) => Some(RequestLogBodyGcCursor { created_at, id, restart_at }),
            None => None,
        };
        (true, BodyGcCursorWrite::Store(c))
    } else if deadline_passed && after.is_some() {
        let (created_at, id) = after.unwrap();
        (true, BodyGcCursorWrite::Store(Some(RequestLogBodyGcCursor { created_at, id, restart_at })))
    } else {
        match after {
            Some((created_at, id)) => if restart_at.is_some() {
                (false, BodyGcCursorWrite::Store(Some(RequestLogBodyGcCursor { created_at, id, restart_at })))
            } else {
                (false, BodyGcCursorWrite::Store(None))
            },
            None => (false, BodyGcCursorWrite::Keep),
        }
    }
}

/// How a finished scan leaves the cursor, for every outcome: there is more to
/// do exactly when the scan stopped early or was cut off by its deadline after
/// scanning something; the cursor is left alone exactly when the scan ran out
/// of requests without scanning any; a stored cursor always points at the last
/// request scanned and carries the scan's restart time; and whenever a request
/// was scanned and a kept body gave a restart time, that cursor is stored (so
/// the next run resumes there rather than starting over). The cursor is cleared
/// only when nothing was scanned in a scan that stopped early, or when a scan
/// that ran out of requests kept no body.
pub proof fn lemma_finished_scan_cursor(has_more: bool, deadline_passed: bool, after: Option<(i64, i64)>, restart_at: Option<i64>)
    ensures
        finish_scan_spec(has_more, deadline_passed, after, restart_at).0 <==> (has_more || (deadline_passed && after is Some)),
        finish_scan_spec(has_more, deadline_passed, after, restart_at).1 is Keep <==> (!has_more && after is None),
        finish_scan_spec(has_more, deadline_passed, after, restart_at).1 matches BodyGcCursorWrite::Store(Some(c))
            ==> after == Some((c.created_at, c.id)) && c.restart_at == restart_at,
        finish_scan_spec(has_more, deadline_passed, after, restart_at).1 == BodyGcCursorWrite::Store(None)
            <==> ((has_more && after is None) || (!has_more && !deadline_passed && after is Some && restart_at is None)),
        after matches Some(p) ==> (restart_at is Some ==> finish_scan_spec(has_more, deadline_passed, after, restart_at).1
            == BodyGcCursorWrite::Store(Some(RequestLogBodyGcCursor { created_at: p.0, id: p.1, restart_at }))),
{
}

/// A scan starts from the stored cursor unless its restart time has come
/// (is at or before `now`), in which case it starts over from the beginning;
/// a cursor without a restart time is always resumed.
pub proof fn lemma_start_cursor_resets_when_due(cursor: Option<RequestLogBodyGcCursor>, now: i64)
    ensures
        start_cursor_spec(cursor, now) is None || start_cursor_spec(cursor, now) == cursor,
        start_cursor_spec(cursor, now) is None <==> (cursor matches Some(c) ==> (c.restart_at matches Some(t) && t <= now)),
{
}

/// A retention setting is kept for 1 to `i32::MAX` days: settings in that
/// range are kept as they are, smaller ones keep bodies one day, larger ones
/// `i32::MAX` days.
pub proof fn lemma_retention_days_clamped(retention_days: i64)
    ensures
        1 <= retention_days_kept(retention_days) <= i32::MAX,
        (1 <= retention_days <= i32::MAX) ==> retention_days_kept(retention_days) == retention_days,
        retention_days < 1 ==> retention_days_kept(retention_days) == 1,
        retention_days > i32::MAX ==> retention_days_kept(retention_days) == i32::MAX,
{
}

/// The days a retention setting keeps bodies, as an integer.
pub open spec fn retention_days_kept(retention_days: i64) -> int {
    retention_shift_days_spec(retention_days) as int
}

/// A batch request (kind `mcp:batch`, surrounding spaces aside) whose body was
/// dropped is valuable exactly when it counted against business quota; any
/// batch that did not count is never valuable; a request of any other kind
/// gets the bucket its kind and body give.
pub proof fn lemma_batch_value_follows_quota(kind: Seq<char>, has_body: bool, counts_business_quota: bool, by_kind_and_body: RequestValueBucket)
    ensures
        (trim(kind) == "mcp:batch"@ && !has_body) ==> (stored_bucket_spec(kind, has_body, counts_business_quota, by_kind_and_body)
            == if counts_business_quota { RequestValueBucket::Valuable } else { RequestValueBucket::Other }),
        (trim(kind) == "mcp:batch"@ && !counts_business_quota) ==> stored_bucket_spec(kind, has_body, counts_business_quota, by_kind_and_body)
            == RequestValueBucket::Other,
        trim(kind) != "mcp:batch"@ ==> stored_bucket_spec(kind, has_body, counts_business_quota, by_kind_and_body) == by_kind_and_body,
{
}

} // verus!
