//! Calendar computations delegated to `chrono`.

use vstd::prelude::*;

verus! {

/// The first second chrono can represent: 1 January 262144 BCE, 00:00:00 UTC
/// (`NaiveDateTime::MIN`).
pub const CHRONO_MIN_TIMESTAMP: i64 = -8334601228800;

/// The last second chrono can represent: 31 December 262142 CE, 23:59:59 UTC
/// (`NaiveDateTime::MAX`).
pub const CHRONO_MAX_TIMESTAMP: i64 = 8210266876799;

/// Whether chrono can represent the instant `ts` (in seconds since the
/// epoch): `DateTime::from_timestamp(ts, 0)` is `Some` exactly then.
pub open spec fn chrono_timestamp_in_range(ts: i64) -> bool {
    CHRONO_MIN_TIMESTAMP <= ts && ts <= CHRONO_MAX_TIMESTAMP
}

/// The seconds in a day.
pub open spec fn day_secs() -> int {
    86400
}

/// The UTC start of the month containing `ts` and the UTC start of the
/// following month, as chrono computes them (`None` outside chrono's range).
pub uninterp spec fn chrono_utc_month_starts(ts: i64) -> Option<(i64, i64)>;

/// Calls `chrono::DateTime::from_timestamp(ts, 0)`, moves the instant to the
/// local time zone with `with_timezone(&chrono::Local)` and reads it back with
/// `timestamp()`. Claimed: the result is `ts` itself when chrono can represent
/// it, and `None` otherwise. `from_timestamp` returns `None` exactly for the
/// seconds outside `NaiveDateTime::MIN ..= NaiveDateTime::MAX` (the bounds
/// above), it round-trips with `timestamp`, and `with_timezone` keeps the
/// instant.
#[verifier::external_body]
pub(crate) fn local_instant_timestamp(ts: i64) -> (r: Option<i64>)
    ensures
        r == (if chrono_timestamp_in_range(ts) { Some(ts) } else { None::<i64> }),
{
    match chrono::DateTime::from_timestamp(ts, 0) {
        Some(dt) => Some(dt.with_timezone(&chrono::Local).timestamp()),
        None => None,
    }
}

/// Calls chrono to find the local midnight (`and_local_timezone(Local)
/// .earliest()`) of the local calendar day holding `ts` and of the next day,
/// as UTC timestamps. The local time of `ts` is formed with
/// `checked_add_offset`, so an instant whose local time chrono cannot
/// represent gives `None`. Which midnights come back depends on the machine's
/// time zone; claimed is only what holds in every zone: chrono's offsets are
/// under a day either way (`FixedOffset::east_opt`), so the day's start lies
/// within three days before and two days after `ts`, and the next day's start
/// within two days before and three days after it. That the two bracket `ts`
/// is not claimed: a zone may move its clocks back across midnight.
#[verifier::external_body]
pub(crate) fn local_day_starts(ts: i64) -> (r: Option<(i64, i64)>)
    ensures
        match r {
            Some((s, n)) => ts - 3 * day_secs() < s < ts + 2 * day_secs() && ts - 2 * day_secs() < n < ts + 3 * day_secs(),
            None => true,
        },
{
    let utc = chrono::DateTime::from_timestamp(ts, 0)?.naive_utc();
    let offset = chrono::TimeZone::offset_from_utc_datetime(&chrono::Local, &utc);
    let day = utc.checked_add_offset(offset)?.date();
    let start = day.and_hms_opt(0, 0, 0)?.and_local_timezone(chrono::Local).earliest()?;
    let next = day.succ_opt()?.and_hms_opt(0, 0, 0)?.and_local_timezone(chrono::Local).earliest()?;
    Some((start.timestamp(), next.timestamp()))
}

/// Calls chrono to find the local midnight (`and_local_timezone(Local)
/// .earliest()`) of the first day of the local calendar month holding `ts`,
/// as a UTC timestamp; `None` where chrono cannot represent a step. It
/// depends on the machine's time zone; claimed is only what holds in every
/// zone: with offsets under a day, the month's start lies within 33 days
/// before and two days after `ts`.
#[verifier::external_body]
pub(crate) fn local_month_start(ts: i64) -> (r: Option<i64>)
    ensures
        match r {
            Some(s) => ts - 33 * day_secs() < s < ts + 2 * day_secs(),
            None => true,
        },
{
    let utc = chrono::DateTime::from_timestamp(ts, 0)?.naive_utc();
    let offset = chrono::TimeZone::offset_from_utc_datetime(&chrono::Local, &utc);
    let first = chrono::Datelike::with_day(&utc.checked_add_offset(offset)?.date(), 1)?;
    let start = first.and_hms_opt(0, 0, 0)?.and_local_timezone(chrono::Local).earliest()?;
    Some(start.timestamp())
}

/// Calls chrono to find the local midnight (`and_local_timezone(Local)
/// .earliest()`) of the local calendar day `days` days after the one holding
/// `ts` (`checked_add_days`), as a UTC timestamp; `None` where chrono cannot
/// represent a step. It depends on the machine's time zone; claimed is only
/// what holds in every zone: with offsets under a day, it lies within three
/// days before and two days after `ts` moved on by `days` whole days.
#[verifier::external_body]
pub(crate) fn local_day_start_after_days(ts: i64, days: u32) -> (r: Option<i64>)
    ensures
        match r {
            Some(s) => ts + days * day_secs() - 3 * day_secs() < s < ts + days * day_secs() + 2 * day_secs(),
            None => true,
        },
{
    let utc = chrono::DateTime::from_timestamp(ts, 0)?.naive_utc();
    let offset = chrono::TimeZone::offset_from_utc_datetime(&chrono::Local, &utc);
    let day = utc.checked_add_offset(offset)?.date().checked_add_days(chrono::Days::new(u64::from(days)))?;
    let start = day.and_hms_opt(0, 0, 0)?.and_local_timezone(chrono::Local).earliest()?;
    Some(start.timestamp())
}

/// Reads the clock: `chrono::Utc::now().timestamp()`. Nothing is claimed of
/// it.
#[verifier::external_body]
pub(crate) fn now_unix_ts() -> (r: i64)
{
    chrono::Utc::now().timestamp()
}

/// Calls chrono to find the first day of the UTC month holding `ts`
/// (`date_naive().with_day(1)`) and the first day of the next month
/// (`checked_add_months(Months::new(1))`), both at 00:00 UTC, as timestamps.
/// Claimed: the result is `chrono_utc_month_starts(ts)`; the two starts
/// bracket `ts` and lie within 31 days of it (UTC months are whole days, 28
/// to 31 of them); and there is a result for every instant chrono can
/// represent outside its last month (its only step that can fail on such an
/// instant is `checked_add_months`, past `NaiveDate::MAX`).
#[verifier::external_body]
pub(crate) fn utc_month_starts(ts: i64) -> (r: Option<(i64, i64)>)
    ensures
        r == chrono_utc_month_starts(ts),
        match r {
            Some((s, n)) => ts - 31 * day_secs() < s <= ts < n <= ts + 31 * day_secs(),
            None => true,
        },
        chrono_timestamp_in_range(ts) && ts <= CHRONO_MAX_TIMESTAMP - 31 * day_secs() ==> r is Some,
{
    let first = chrono::Datelike::with_day(&chrono::DateTime::from_timestamp(ts, 0)?.date_naive(), 1)?;
    let next = first.checked_add_months(chrono::Months::new(1))?;
    Some((first.and_hms_opt(0, 0, 0)?.and_utc().timestamp(), next.and_hms_opt(0, 0, 0)?.and_utc().timestamp()))
}


/// The UTC instant of the local midnight that starts the local day holding
/// `ts`, when chrono finds one. It depends on the machine's time zone; what
/// holds in every zone is that it lies within three days before and two
/// days after `ts`.
pub fn local_day_start(ts: i64) -> (r: Option<i64>)
    ensures
        match r {
            Some(s) => ts - 3 * day_secs() < s < ts + 2 * day_secs(),
            None => true,
        },
{
    match local_day_starts(ts) {
        Some((start, _)) => Some(start),
        None => None,
    }
}

/// The UTC instant of 00:00 UTC on the first day of the UTC month holding
/// `ts`, as chrono computes it.
pub fn utc_month_start(ts: i64) -> (r: Option<i64>)
    ensures
        r == match chrono_utc_month_starts(ts) {
            Some((s, _)) => Some(s),
            None => None::<i64>,
        },
{
    match utc_month_starts(ts) {
        Some((start, _)) => Some(start),
        None => None,
    }
}

} // verus!
