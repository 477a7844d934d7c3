//! Recovering the limit window of an alert from its type and error message.

use vstd::prelude::*;
use crate::text::{
    chars_of, contains, find_chars, find_from, int_decimal, parse_i64, parse_i64_chars,
    push_i64_decimal, str_contains, str_eq, sub_chars, trim, trim_bounds, trim_chars,
    trim_string,
};
use crate::num::{sat_sub, saturating_sub_i64};
use crate::clock::{
    CHRONO_MAX_TIMESTAMP, chrono_timestamp_in_range, chrono_utc_month_starts, day_secs, local_day_starts, local_instant_timestamp,
    utc_month_starts,
};
use crate::alerts::model::{
    AlertEventModel, AlertEventRecord, AlertSemanticWindow, AlertSemanticWindowKind,
    AlertSemanticWindowModel, opt_str,
};

verus! {

pub const ALERT_TYPE_UPSTREAM_RATE_LIMITED_429: &'static str = "upstream_rate_limited_429";
pub const ALERT_TYPE_UPSTREAM_USAGE_LIMIT_432: &'static str = "upstream_usage_limit_432";
pub const ALERT_TYPE_UPSTREAM_KEY_BLOCKED: &'static str = "upstream_key_blocked";
pub const ALERT_TYPE_USER_REQUEST_RATE_LIMITED: &'static str = "user_request_rate_limited";
pub const ALERT_TYPE_USER_QUOTA_EXHAUSTED: &'static str = "user_quota_exhausted";

/// The window length in minutes that a request-rate error message names
/// ("... rolling 5m window ..."), when it names a positive one.
pub open spec fn rate_window_minutes_spec(msg: Seq<char>) -> Option<int> {
    let m = trim(msg);
    match find_from(m, "rolling "@, 0) {
        None => None,
        Some(p) => {
            let rest = m.skip(p + "rolling "@.len());
            match find_from(rest, seq!['m'], 0) {
                None => None,
                Some(e) => match parse_i64(trim(rest.take(e))) {
                    Some(v) => if v > 0 { Some(v) } else { None },
                    None => None,
                },
            }
        }
    }
}

/// The minutes that `parse_request_rate_window_metadata` finds in an optional message.
pub open spec fn opt_rate_window_minutes(msg: Option<Seq<char>>) -> Option<int> {
    match msg {
        Some(m) => rate_window_minutes_spec(m),
        None => None,
    }
}

/// Reads the rolling window length from a request-rate error message.
pub fn parse_request_rate_window_metadata(error_message: Option<&str>) -> (r: Option<i64>)
    ensures
        match error_message {
            Some(m) => r matches Some(v) && rate_window_minutes_spec(m@) == Some(v as int)
                || r is None && rate_window_minutes_spec(m@) is None,
            None => r is None,
        },
{
    let msg = match error_message {
        Some(m) => m,
        None => return None,
    };
    let c = chars_of(msg);
    let m = trim_chars(&c);
    let marker = chars_of("rolling ");
    let p = match find_chars(&m, &marker) {
        Some(p) => p,
        None => return None,
    };
    proof {
        lemma_find_from_bounds(m@, marker@, 0);
        assert(p + marker.len() <= m.len());
    }
    let start = p + marker.len();
    let rest = sub_chars(&m, start, m.len());
    proof {
        assert(rest@ =~= m@.skip(p + "rolling "@.len()));
    }
    let mut mm: Vec<char> = Vec::new();
    mm.push('m');
    assert(mm@ =~= seq!['m']);
    let e = match find_chars(&rest, &mm) {
        Some(e) => e,
        None => return None,
    };
    proof {
        lemma_find_from_bounds(rest@, mm@, 0);
    }
    let head = sub_chars(&rest, 0, e);
    assert(head@ =~= rest@.take(e as int));
    let inner = trim_chars(&head);
    let v = parse_i64_chars(&inner, 0, inner.len());
    assert(inner@.subrange(0, inner@.len() as int) =~= inner@);
    match v {
        Some(v) => if v > 0 { Some(v) } else { None },
        None => None,
    }
}

proof fn lemma_find_from_bounds(hay: Seq<char>, needle: Seq<char>, i: int)
    requires
        0 <= i,
    ensures
        find_from(hay, needle, i) matches Some(p) ==> i <= p && p + needle.len() <= hay.len(),
    decreases hay.len() + 1 - i,
{
    if i + needle.len() <= hay.len() && !crate::text::occurs_at(hay, needle, i) {
        lemma_find_from_bounds(hay, needle, i + 1);
    }
}

/// The quota window kind that a quota error message names.
pub open spec fn quota_window_kind_spec(msg: Seq<char>) -> Option<AlertSemanticWindowKind> {
    let m = trim(msg);
    if contains(m, "quota exceeded on month window"@) {
        Some(AlertSemanticWindowKind::Month)
    } else if contains(m, "quota exceeded on day window"@) {
        Some(AlertSemanticWindowKind::Day)
    } else if contains(m, "quota exceeded on hour window"@) {
        Some(AlertSemanticWindowKind::RollingHour)
    } else {
        None
    }
}

/// The quota window kind of an optional message.
pub open spec fn opt_quota_window_kind(msg: Option<Seq<char>>) -> Option<AlertSemanticWindowKind> {
    match msg {
        Some(m) => quota_window_kind_spec(m),
        None => None,
    }
}

/// Reads the quota window kind (hour, day or month) from a quota error message.
pub fn quota_window_kind_from_error_message(error_message: Option<&str>) -> (r: Option<AlertSemanticWindowKind>)
    ensures
        r == match error_message {
            Some(m) => quota_window_kind_spec(m@),
            None => None,
        },
{
    let msg = match error_message {
        Some(m) => m,
        None => return None,
    };
    let m = trim_string(msg);
    if str_contains(m.as_str(), "quota exceeded on month window") {
        return Some(AlertSemanticWindowKind::Month);
    }
    if str_contains(m.as_str(), "quota exceeded on day window") {
        return Some(AlertSemanticWindowKind::Day);
    }
    if str_contains(m.as_str(), "quota exceeded on hour window") {
        return Some(AlertSemanticWindowKind::RollingHour);
    }
    None
}

/// The rolling hour window ending at `ts`: the 59 minutes before it and `ts`.
pub open spec fn hour_window_spec(ts: i64) -> Option<(i64, i64)> {
    if chrono_timestamp_in_range(ts) {
        Some((sat_sub(ts as int, 3540) as i64, ts))
    } else {
        None
    }
}

/// The rolling hour window that ends at the event time.
pub fn local_hour_window_bounds(ts: i64) -> (r: Option<(i64, i64)>)
    ensures
        r == hour_window_spec(ts),
        r matches Some(b) ==> b.1 == ts && b.0 as int == sat_sub(ts as int, 3540),
{
    match local_instant_timestamp(ts) {
        Some(end) => Some((saturating_sub_i64(end, 59 * 60), end)),
        None => None,
    }
}

/// A day or month window from the start of its period and of the next one:
/// it ends one second before the next period starts.
pub open spec fn period_window_spec(starts: Option<(i64, i64)>) -> Option<(i64, i64)> {
    match starts {
        Some((start, next)) => Some((start, sat_sub(next as int, 1) as i64)),
        None => None,
    }
}

/// The window of a period from its start and the start of the next period.
pub fn period_window(starts: Option<(i64, i64)>) -> (r: Option<(i64, i64)>)
    ensures
        r == period_window_spec(starts),
{
    match starts {
        Some((start, next)) => Some((start, saturating_sub_i64(next, 1))),
        None => None,
    }
}

/// Whether `starts` could be the local midnights around `ts` in some time
/// zone: the day's start within three days before and two after `ts`, the
/// next day's start within two days before and three after it.
pub open spec fn plausible_local_day_starts(ts: i64, starts: Option<(i64, i64)>) -> bool {
    match starts {
        Some((s, n)) => ts - 3 * day_secs() < s < ts + 2 * day_secs() && ts - 2 * day_secs() < n < ts + 3 * day_secs(),
        None => true,
    }
}

/// The local calendar day holding `ts`. It depends on the machine's time
/// zone: what holds of every outcome is that it is the period window of
/// local midnights no further from `ts` than a zone's offsets allow.
pub fn local_day_window_bounds(ts: i64) -> (r: Option<(i64, i64)>)
    ensures
        exists|starts: Option<(i64, i64)>| plausible_local_day_starts(ts, starts) && r == period_window_spec(starts),
{
    let starts = local_day_starts(ts);
    let r = period_window(starts);
    assert(r == period_window_spec(starts));
    r
}

/// The UTC month holding `ts`.
pub open spec fn month_window_spec(ts: i64) -> Option<(i64, i64)> {
    period_window_spec(chrono_utc_month_starts(ts))
}

/// The UTC calendar month holding `ts`.
pub fn utc_month_window_bounds(ts: i64) -> (r: Option<(i64, i64)>)
    ensures
        r == month_window_spec(ts),
        match r {
            Some((start, end)) => start <= ts <= end,
            None => true,
        },
        chrono_timestamp_in_range(ts) && ts <= CHRONO_MAX_TIMESTAMP - 31 * day_secs() ==> r is Some,
{
    period_window(utc_month_starts(ts))
}

/// A quota window of `kind` with the given bounds; its key is the window
/// kind's prefix and the window start.
pub open spec fn quota_window_model(kind: AlertSemanticWindowKind, bounds: Option<(i64, i64)>, prefix: Seq<char>) -> Option<AlertSemanticWindowModel> {
    match bounds {
        Some((start, end)) => Some(AlertSemanticWindowModel {
            kind,
            window_minutes: if kind == AlertSemanticWindowKind::RollingHour { Some(60i64) } else { None },
            window_start: Some(start),
            window_end: Some(end),
            window_key: Some(prefix + int_decimal(start as int)),
        }),
        None => None,
    }
}

/// The request-rate window length an event gets: the one its message names,
/// else `default_minutes`.
pub open spec fn rate_minutes_for(msg: Option<Seq<char>>, default_minutes: i64) -> int {
    match opt_rate_window_minutes(msg) {
        Some(v) => v,
        None => default_minutes as int,
    }
}

/// Whether the window arithmetic for an event with this type and message
/// stays within `i64` (the window length in seconds fits).
pub open spec fn window_arith_ok(alert_type: Seq<char>, msg: Option<Seq<char>>, default_minutes: i64) -> bool {
    alert_type == ALERT_TYPE_USER_REQUEST_RATE_LIMITED@ ==> {
        let m = rate_minutes_for(msg, default_minutes);
        i64::MIN <= m * 60 <= i64::MAX
    }
}

/// The limit window of an alert, given the rolling hour, local day and UTC
/// month windows around its time.
pub open spec fn semantic_window_spec(
    alert_type: Seq<char>,
    msg: Option<Seq<char>>,
    occurred_at: i64,
    default_minutes: i64,
    hour: Option<(i64, i64)>,
    day: Option<(i64, i64)>,
    month: Option<(i64, i64)>,
) -> Option<AlertSemanticWindowModel> {
    if alert_type == ALERT_TYPE_USER_REQUEST_RATE_LIMITED@ {
        let m = rate_minutes_for(msg, default_minutes);
        Some(AlertSemanticWindowModel {
            kind: AlertSemanticWindowKind::RequestRate,
            window_minutes: Some(m as i64),
            window_start: Some(sat_sub(occurred_at as int, m * 60) as i64),
            window_end: Some(occurred_at),
            window_key: None,
        })
    } else if alert_type == ALERT_TYPE_USER_QUOTA_EXHAUSTED@ {
        match opt_quota_window_kind(msg) {
            Some(AlertSemanticWindowKind::RollingHour) => quota_window_model(AlertSemanticWindowKind::RollingHour, hour, "hour:"@),
            Some(AlertSemanticWindowKind::Day) => quota_window_model(AlertSemanticWindowKind::Day, day, "day:"@),
            Some(AlertSemanticWindowKind::Month) => quota_window_model(AlertSemanticWindowKind::Month, month, "month:"@),
            _ => None,
        }
    } else {
        None
    }
}

fn quota_window(kind: AlertSemanticWindowKind, bounds: Option<(i64, i64)>, prefix: &str) -> (r: Option<AlertSemanticWindow>)
    ensures
        r matches Some(w) ==> quota_window_model(kind, bounds, prefix@) == Some(w@),
        r is None <==> quota_window_model(kind, bounds, prefix@) is None,
{
    match bounds {
        Some((start, end)) => {
            let mut key = String::from_str(prefix);
            push_i64_decimal(&mut key, start);
            let w = AlertSemanticWindow {
                kind,
                window_minutes: if kind == AlertSemanticWindowKind::RollingHour { Some(60) } else { None },
                window_start: Some(start),
                window_end: Some(end),
                window_key: Some(key),
            };
            Some(w)
        },
        None => None,
    }
}

/// The limit window of an alert with the given type, message and time,
/// given the windows around that time.
pub fn semantic_window_with_bounds(
    alert_type: &str,
    error_message: Option<&str>,
    occurred_at: i64,
    default_minutes: i64,
    hour: Option<(i64, i64)>,
    day: Option<(i64, i64)>,
    month: Option<(i64, i64)>,
) -> (r: Option<AlertSemanticWindow>)
    requires
        window_arith_ok(alert_type@, opt_ref_str(error_message), default_minutes),
    ensures
        r matches Some(w) ==> semantic_window_spec(alert_type@, opt_ref_str(error_message), occurred_at, default_minutes, hour, day, month) == Some(w@),
        r is None <==> semantic_window_spec(alert_type@, opt_ref_str(error_message), occurred_at, default_minutes, hour, day, month) is None,
{
    if str_eq(alert_type, ALERT_TYPE_USER_REQUEST_RATE_LIMITED) {
        let window_minutes = match parse_request_rate_window_metadata(error_message) {
            Some(v) => v,
            None => default_minutes,
        };
        let rolling_window_secs = window_minutes * 60;
        Some(AlertSemanticWindow {
            kind: AlertSemanticWindowKind::RequestRate,
            window_minutes: Some(window_minutes),
            window_start: Some(saturating_sub_i64(occurred_at, rolling_window_secs)),
            window_end: Some(occurred_at),
            window_key: None,
        })
    } else if str_eq(alert_type, ALERT_TYPE_USER_QUOTA_EXHAUSTED) {
        match quota_window_kind_from_error_message(error_message) {
            Some(AlertSemanticWindowKind::RollingHour) => quota_window(AlertSemanticWindowKind::RollingHour, hour, "hour:"),
            Some(AlertSemanticWindowKind::Day) => quota_window(AlertSemanticWindowKind::Day, day, "day:"),
            Some(AlertSemanticWindowKind::Month) => quota_window(AlertSemanticWindowKind::Month, month, "month:"),
            _ => None,
        }
    } else {
        None
    }
}

/// The model of an optional string slice.
pub open spec fn opt_ref_str(o: Option<&str>) -> Option<Seq<char>> {
    match o {
        Some(s) => Some(s@),
        None => None,
    }
}

/// Whether window arithmetic stays within `i64` for an event.
pub open spec fn event_window_arith_ok(e: AlertEventModel, default_minutes: i64) -> bool {
    window_arith_ok(e.alert_type, e.error_message, default_minutes)
}

/// The limit window of an event, with the rolling hour and UTC month around
/// its time computed by chrono, and the local day as the machine's time zone
/// gives it.
pub fn event_semantic_window(event: &AlertEventRecord, default_minutes: i64) -> (r: Option<AlertSemanticWindow>)
    requires
        event_window_arith_ok(event@, default_minutes),
    ensures
        exists|day: Option<(i64, i64)>| {
            &&& exists|starts: Option<(i64, i64)>| plausible_local_day_starts(event.occurred_at, starts) && day == period_window_spec(starts)
            &&& (r matches Some(w) ==> semantic_window_spec(event@.alert_type, event@.error_message, event.occurred_at, default_minutes, hour_window_spec(event.occurred_at), day, month_window_spec(event.occurred_at)) == Some(w@))
            &&& (r is None <==> semantic_window_spec(event@.alert_type, event@.error_message, event.occurred_at, default_minutes, hour_window_spec(event.occurred_at), day, month_window_spec(event.occurred_at)) is None)
        },
{
    let msg: Option<&str> = match &event.error_message {
        Some(m) => Some(m.as_str()),
        None => None,
    };
    assert(opt_ref_str(msg) == opt_str(event.error_message));
    let ts = event.occurred_at;
    let needs_quota = str_eq(event.alert_type.as_str(), ALERT_TYPE_USER_QUOTA_EXHAUSTED);
    let kind = if needs_quota { quota_window_kind_from_error_message(msg) } else { None };
    let hour = if kind == Some(AlertSemanticWindowKind::RollingHour) { local_hour_window_bounds(ts) } else { None };
    let day = if kind == Some(AlertSemanticWindowKind::Day) { local_day_window_bounds(ts) } else { None };
    proof {
        if kind != Some(AlertSemanticWindowKind::Day) {
            assert(plausible_local_day_starts(ts, None) && day == period_window_spec(None));
        }
    }
    let month = if kind == Some(AlertSemanticWindowKind::Month) { utc_month_window_bounds(ts) } else { None };
    let r = semantic_window_with_bounds(event.alert_type.as_str(), msg, ts, default_minutes, hour, day, month);
    assert(semantic_window_spec(event@.alert_type, event@.error_message, ts, default_minutes, hour, day, month)
        == semantic_window_spec(event@.alert_type, event@.error_message, ts, default_minutes, hour_window_spec(ts), day, month_window_spec(ts)));
    r
}

/// A message naming the month window is read as a monthly quota whatever else
/// it names; one naming the day window but not the month as a daily quota;
/// one naming only the hour window as a rolling hour; any other message names
/// no window. Spaces around the message do not change what it names.
pub proof fn lemma_quota_window_kind_priority(msg: Seq<char>)
    ensures
        contains(trim(msg), "quota exceeded on month window"@)
            ==> quota_window_kind_spec(msg) == Some(AlertSemanticWindowKind::Month),
        (!contains(trim(msg), "quota exceeded on month window"@) && contains(trim(msg), "quota exceeded on day window"@))
            ==> quota_window_kind_spec(msg) == Some(AlertSemanticWindowKind::Day),
        (!contains(trim(msg), "quota exceeded on month window"@) && !contains(trim(msg), "quota exceeded on day window"@)
            && contains(trim(msg), "quota exceeded on hour window"@))
            ==> quota_window_kind_spec(msg) == Some(AlertSemanticWindowKind::RollingHour),
        (!contains(trim(msg), "quota exceeded on month window"@) && !contains(trim(msg), "quota exceeded on day window"@)
            && !contains(trim(msg), "quota exceeded on hour window"@))
            ==> quota_window_kind_spec(msg) is None,
        quota_window_kind_spec(trim(msg)) == quota_window_kind_spec(msg),
{
    crate::text::lemma_trim_idempotent(msg);
}

} // verus!
