//! The recent-alerts summary: the windows it counts over and the per-type
//! counts it reports.

use vstd::prelude::*;
use crate::num::{sat_mul, sat_sub, saturating_mul_i64, saturating_sub_i64};
use crate::text::str_eq;

verus! {

/// How many alerts of one type were counted.
pub struct AlertTypeCount {
    pub alert_type: String,
    pub count: i64,
}

/// The last position of `t` among the types of `d`.
pub open spec fn last_type_index(d: Seq<(Seq<char>, i64)>, t: Seq<char>) -> Option<int>
    decreases d.len(),
{
    if d.len() == 0 {
        None
    } else if d.last().0 == t {
        Some(d.len() - 1)
    } else {
        last_type_index(d.drop_last(), t)
    }
}

/// The count of the last row of type `t`, if any.
pub open spec fn last_row_count(rows: Seq<(Seq<char>, i64)>, t: Seq<char>) -> Option<i64>
    decreases rows.len(),
{
    if rows.len() == 0 {
        None
    } else if rows.last().0 == t {
        Some(rows.last().1)
    } else {
        last_row_count(rows.drop_last(), t)
    }
}

/// The models of type counts.
pub open spec fn type_count_models(v: Seq<AlertTypeCount>) -> Seq<(Seq<char>, i64)> {
    v.map_values(|c: AlertTypeCount| (c.alert_type@, c.count))
}

/// The models of counted rows.
pub open spec fn row_models(v: Seq<(String, i64)>) -> Seq<(Seq<char>, i64)> {
    v.map_values(|r: (String, i64)| (r.0@, r.1))
}

/// Each known type, in the order given, with the count of the last row of
/// its type (the last entry of a type listed twice takes it), or its
/// default count when no row has its type; rows of other types are ignored.
pub open spec fn summarize_spec(d: Seq<(Seq<char>, i64)>, rows: Seq<(Seq<char>, i64)>) -> Seq<(Seq<char>, i64)> {
    Seq::new(d.len(), |i: int| {
        let t = d[i].0;
        if last_type_index(d, t) == Some(i) && last_row_count(rows, t) is Some {
            (t, last_row_count(rows, t)->0)
        } else {
            d[i]
        }
    })
}

proof fn lemma_last_type_index(d: Seq<(Seq<char>, i64)>, t: Seq<char>, i: int)
    requires
        0 <= i < d.len(),
        d[i].0 == t,
    ensures
        last_type_index(d, t) == Some(i) <==> forall|j: int| i < j < d.len() ==> #[trigger] d[j].0 != t,
    decreases d.len(),
{
    if i < d.len() - 1 {
        let last = d.len() - 1;
        if d.last().0 == t {
            assert(d[last].0 == t);
        } else {
            assert(d.drop_last()[i] == d[i]);
            lemma_last_type_index(d.drop_last(), t, i);
            assert forall|j: int| i < j < d.len() - 1 implies #[trigger] d.drop_last()[j] == d[j] by {}
            if forall|j: int| i < j < d.len() - 1 ==> #[trigger] d.drop_last()[j].0 != t {
                assert forall|j: int| i < j < d.len() implies #[trigger] d[j].0 != t by {
                    if j < d.len() - 1 {
                        assert(d.drop_last()[j].0 != t);
                    }
                }
            } else {
                let j = choose|j: int| i < j < d.len() - 1 && !(#[trigger] d.drop_last()[j].0 != t);
                assert(d[j].0 == t);
            }
        }
    }
}

fn later_type_exists(d: &Vec<AlertTypeCount>, i: usize) -> (r: bool)
    requires
        i < d.len(),
    ensures
        r == exists|j: int| i < j < d.len() && #[trigger] d@[j].alert_type@ == d@[i as int].alert_type@,
{
    let mut j = i + 1;
    while j < d.len()
        invariant
            i < j <= d.len(),
            forall|k: int| i < k < j ==> #[trigger] d@[k].alert_type@ != d@[i as int].alert_type@,
        decreases d.len() - j,
    {
        if str_eq(d[j].alert_type.as_str(), d[i].alert_type.as_str()) {
            return true;
        }
        j = j + 1;
    }
    false
}

fn find_last_row_count(rows: &Vec<(String, i64)>, t: &str) -> (r: Option<i64>)
    ensures
        r == last_row_count(row_models(rows@), t@),
{
    let ghost m = row_models(rows@);
    let mut i = rows.len();
    proof { assert(m.take(i as int) =~= m); }
    while i > 0
        invariant
            i <= rows.len(),
            m == row_models(rows@),
            last_row_count(m, t@) == last_row_count(m.take(i as int), t@),
        decreases i,
    {
        let j = i - 1;
        proof {
            assert(m.take(i as int).drop_last() =~= m.take(j as int));
            assert(m.take(i as int).last() == m[j as int]);
        }
        if str_eq(rows[j].0.as_str(), t) {
            return Some(rows[j].1);
        }
        i = j;
    }
    proof { assert(m.take(0) =~= Seq::<(Seq<char>, i64)>::empty()); }
    None
}

/// Fills the known alert types with the counts read for them: each type
/// takes the count of the last row of its type, and keeps its default when
/// no row names it.
pub fn summarize_alert_type_counts(defaults: Vec<AlertTypeCount>, rows: &Vec<(String, i64)>) -> (r: Vec<AlertTypeCount>)
    ensures
        type_count_models(r@) == summarize_spec(type_count_models(defaults@), row_models(rows@)),
{
    let ghost d = type_count_models(defaults@);
    let ghost want = summarize_spec(d, row_models(rows@));
    let mut out: Vec<AlertTypeCount> = Vec::new();
    let mut i: usize = 0;
    while i < defaults.len()
        invariant
            i <= defaults.len(),
            d == type_count_models(defaults@),
            want == summarize_spec(d, row_models(rows@)),
            out@.len() == i,
            forall|k: int| 0 <= k < i ==> (#[trigger] out@[k]).alert_type@ == want[k].0 && out@[k].count == want[k].1,
        decreases defaults.len() - i,
    {
        let later = later_type_exists(&defaults, i);
        let t = &defaults[i].alert_type;
        proof {
            assert(d[i as int] == (defaults@[i as int].alert_type@, defaults@[i as int].count));
            lemma_last_type_index(d, d[i as int].0, i as int);
            if later {
                let j = choose|j: int| i < j < defaults@.len() && #[trigger] defaults@[j].alert_type@ == defaults@[i as int].alert_type@;
                assert(d[j].0 == d[i as int].0);
            } else {
                assert forall|j: int| i < j < d.len() implies #[trigger] d[j].0 != d[i as int].0 by {
                    assert(d[j].0 == defaults@[j].alert_type@);
                }
            }
        }
        let count = if later {
            defaults[i].count
        } else {
            match find_last_row_count(rows, t.as_str()) {
                Some(c) => c,
                None => defaults[i].count,
            }
        };
        out.push(AlertTypeCount { alert_type: t.clone(), count });
        i = i + 1;
    }
    proof {
        assert(type_count_models(out@) =~= want);
    }
    out
}

/// The windows a recent-alerts summary counts over.
pub struct RecentAlertsWindows {
    /// The asked window, clamped to one hour .. thirty days.
    pub window_hours: i64,
    /// When that window starts.
    pub since: i64,
    /// Each grouped-count window in hours with its start.
    pub grouped: Vec<(i64, i64)>,
}

/// When a window of `hours` ending at `now` starts (saturating).
pub open spec fn window_since(now: int, hours: int) -> int {
    sat_sub(now, sat_mul(hours, 3600))
}

/// `window_hours` clamped to one hour .. thirty days.
pub open spec fn clamp_window_hours(h: int) -> int {
    if h < 1 { 1 } else if h > 720 { 720 } else { h }
}

fn window_start(now: i64, hours: i64) -> (r: i64)
    ensures
        r as int == window_since(now as int, hours as int),
{
    saturating_sub_i64(now, saturating_mul_i64(hours, 3600))
}

/// The windows of a recent-alerts summary taken at `now`: the asked window
/// clamped to one hour .. thirty days and its start, and the one-hour,
/// one-day and one-week grouped-count windows with their starts.
pub fn recent_alerts_summary_windows(now: i64, window_hours: i64) -> (r: RecentAlertsWindows)
    ensures
        r.window_hours as int == clamp_window_hours(window_hours as int),
        r.since as int == window_since(now as int, r.window_hours as int),
        r.grouped@ == seq![
            (1i64, window_since(now as int, 1) as i64),
            (24i64, window_since(now as int, 24) as i64),
            (168i64, window_since(now as int, 168) as i64),
        ],
{
    let clamped = if window_hours < 1 { 1 } else if window_hours > 720 { 720 } else { window_hours };
    let since = window_start(now, clamped);
    let mut grouped: Vec<(i64, i64)> = Vec::new();
    grouped.push((1, window_start(now, 1)));
    grouped.push((24, window_start(now, 24)));
    grouped.push((168, window_start(now, 168)));
    RecentAlertsWindows { window_hours: clamped, since, grouped }
}

} // verus!
