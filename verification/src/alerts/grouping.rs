//! Grouping alert events: compatibility groups per subject and request kind,
//! and semantic mother groups of contiguous child limit windows.

use vstd::prelude::*;
use vstd::string::*;
use crate::num::{sat_sub, saturating_sub_i64};
use crate::sort::{
    OrdKey, OrdKeyModel, key_before, key_models, lemma_stable_sort_all, lemma_stable_sort_keys_of_items,
    lemma_stable_sort_length, lemma_stable_sort_map, lemma_stable_sort_permutation, lemma_stable_sort_sorted,
    sort_by_keys, stable_sort,
};
use crate::text::{int_decimal, owned, push_i64_decimal, str_eq};
use crate::alerts::model::{
    AlertEventModel, AlertEventRecord, AlertGroupModel, AlertGroupRecord,
    AlertSemanticWindow, AlertSemanticWindowKind, AlertSemanticWindowModel, clone_entity, lemma_group_seq_models_push, lemma_group_seq_models_index, lemma_group_seq_models_map,
    clone_kind, clone_user, clone_window, event_models, group_model, group_seq_models, opt_str,
    window_kind_str,
};
use crate::alerts::subject::{colon4, join_colon4};

verus! {

// ---------------------------------------------------------------------------
// Sorting events
// ---------------------------------------------------------------------------

/// The sort key of an event: its time, then its id.
pub open spec fn event_key(e: AlertEventModel) -> OrdKeyModel {
    OrdKeyModel { n1: e.occurred_at as int, n2: 0, s1: e.id, s2: Seq::empty() }
}

/// The sort keys of a sequence of events.
pub open spec fn event_keys(s: Seq<AlertEventModel>) -> Seq<OrdKeyModel> {
    s.map_values(|e: AlertEventModel| event_key(e))
}

/// Events in stable order of `(occurred_at, id)`, descending or ascending.
pub open spec fn events_sorted(s: Seq<AlertEventModel>, desc: bool) -> Seq<AlertEventModel> {
    stable_sort(s, event_keys(s), desc).0
}

/// Sorted events are the same events, in order: none comes after an event
/// it goes before (newest first when `desc`, by time and then id).
pub proof fn lemma_events_sorted_in_order(s: Seq<AlertEventModel>, desc: bool)
    ensures
        events_sorted(s, desc).to_multiset() == s.to_multiset(),
        forall|i: int, j: int| 0 <= i < j < events_sorted(s, desc).len() ==>
            !key_before(event_key(#[trigger] events_sorted(s, desc)[j]), event_key(#[trigger] events_sorted(s, desc)[i]), desc),
{
    let g = |e: AlertEventModel| event_key(e);
    assert(event_keys(s) == s.map_values(g));
    lemma_stable_sort_permutation(s, event_keys(s), desc);
    lemma_stable_sort_sorted(s, event_keys(s), desc);
    lemma_stable_sort_keys_of_items(s, desc, g);
    lemma_stable_sort_length(s, event_keys(s), desc);
    let r = events_sorted(s, desc);
    let ks = stable_sort(s, event_keys(s), desc).1;
    assert forall|i: int, j: int| 0 <= i < j < r.len() implies
        !key_before(event_key(#[trigger] r[j]), event_key(#[trigger] r[i]), desc) by {
        assert(ks[i] == event_key(r[i]) && ks[j] == event_key(r[j]));
    }
}

fn event_sort_keys(events: &Vec<AlertEventRecord>) -> (k: Vec<OrdKey>)
    ensures
        key_models(k@) == event_keys(event_models(events@)),
        k.len() == events.len(),
{
    let mut k: Vec<OrdKey> = Vec::new();
    let mut i: usize = 0;
    while i < events.len()
        invariant
            i <= events.len(),
            k.len() == i,
            forall|j: int| 0 <= j < i ==> #[trigger] k@[j]@ == event_key(events@[j]@),
        decreases events.len() - i,
    {
        k.push(OrdKey { n1: events[i].occurred_at, n2: 0, s1: events[i].id.clone(), s2: String::new() });
        i = i + 1;
    }
    assert(key_models(k@) =~= event_keys(event_models(events@)));
    k
}

/// Sorts events stably by `(occurred_at, id)`.
pub fn sort_events(events: Vec<AlertEventRecord>, desc: bool) -> (r: Vec<AlertEventRecord>)
    ensures
        event_models(r@) == events_sorted(event_models(events@), desc),
        r.len() == events.len(),
        stable_sort(events@, event_keys(event_models(events@)), desc).0 == r@,
{
    let keys = event_sort_keys(&events);
    let ghost items = events@;
    let r = sort_by_keys(events, keys, desc);
    proof {
        let f = |e: AlertEventRecord| e@;
        lemma_stable_sort_map(items, event_keys(event_models(items)), desc, f);
        assert(event_models(items) == items.map_values(f));
        assert(event_models(r@) == r@.map_values(f));
    }
    r
}

/// Sorts events newest first (by time, then id), in place; events with equal
/// keys keep their order.
pub fn sort_alert_events_desc(events: &mut Vec<AlertEventRecord>)
    ensures
        event_models(final(events)@) == events_sorted(event_models(old(events)@), true),
{
    let mut items: Vec<AlertEventRecord> = Vec::new();
    std::mem::swap(&mut items, events);
    let sorted = sort_events(items, true);
    *events = sorted;
}

// ---------------------------------------------------------------------------
// Group ids
// ---------------------------------------------------------------------------

/// The part of a semantic group id that names the window: its key, else its kind.
pub open spec fn semantic_key_part(w: Option<AlertSemanticWindowModel>) -> Seq<char> {
    match w {
        Some(w) => match w.window_key {
            Some(k) => k,
            None => window_kind_str(w.kind),
        },
        None => Seq::empty(),
    }
}

/// The base id of an event's semantic group: type, subject and window.
pub open spec fn semantic_group_base_id_spec(e: AlertEventModel) -> Seq<char> {
    colon4(e.alert_type, e.subject_kind, e.subject_id, semantic_key_part(e.semantic_window))
}

/// The base id of the semantic group an event belongs to.
pub fn semantic_group_base_id(event: &AlertEventRecord) -> (r: String)
    ensures
        r@ == semantic_group_base_id_spec(event@),
{
    let part: &str = match &event.semantic_window {
        Some(w) => match &w.window_key {
            Some(k) => k.as_str(),
            None => w.kind.as_str(),
        },
        None => "",
    };
    proof {
        reveal_strlit("");
    }
    join_colon4(event.alert_type.as_str(), event.subject_kind.as_str(), event.subject_id.as_str(), part)
}

/// `{parent}:{tag}:{index}`.
pub open spec fn indexed_id(parent: Seq<char>, tag: Seq<char>, index: int) -> Seq<char> {
    parent + seq![':'] + tag + seq![':'] + int_decimal(index)
}

fn join_indexed_id(parent: &str, tag: &str, index: usize) -> (r: String)
    requires
        index <= i64::MAX,
    ensures
        r@ == indexed_id(parent@, tag@, index as int),
{
    let mut r = String::from_str(parent);
    r.append(":");
    r.append(tag);
    r.append(":");
    push_i64_decimal(&mut r, index as i64);
    proof {
        reveal_strlit(":");
        assert(r@ =~= indexed_id(parent@, tag@, index as int));
    }
    r
}

/// The id of the `ordinal`-th mother group whose latest event is `latest_event`.
pub fn semantic_mother_id_from_child(latest_event: &AlertEventRecord, ordinal: usize) -> (r: String)
    requires
        ordinal <= i64::MAX,
    ensures
        r@ == indexed_id(semantic_group_base_id_spec(latest_event@), "mother"@, ordinal as int),
{
    let base = semantic_group_base_id(latest_event);
    join_indexed_id(base.as_str(), "mother", ordinal)
}

/// The id of the `index`-th child window of a semantic group.
pub fn child_group_id(parent_id: &str, index: usize) -> (r: String)
    requires
        index <= i64::MAX,
    ensures
        r@ == indexed_id(parent_id@, "child"@, index as int),
{
    join_indexed_id(parent_id, "child", index)
}

/// The key under which semantic events are grouped: type, subject, window
/// kind and window length.
pub open spec fn semantic_subject_key_spec(e: AlertEventModel) -> Seq<char> {
    let kind = match e.semantic_window {
        Some(w) => window_kind_str(w.kind),
        None => "compat"@,
    };
    let minutes = match e.semantic_window {
        Some(w) => match w.window_minutes {
            Some(m) => int_decimal(m as int),
            None => Seq::empty(),
        },
        None => Seq::empty(),
    };
    colon4(e.alert_type, e.subject_kind, e.subject_id, kind) + seq![':'] + minutes
}

/// The key under which an event joins a semantic group.
pub fn semantic_subject_key(event: &AlertEventRecord) -> (r: String)
    ensures
        r@ == semantic_subject_key_spec(event@),
{
    let kind: &str = match &event.semantic_window {
        Some(w) => w.kind.as_str(),
        None => "compat",
    };
    let mut r = join_colon4(event.alert_type.as_str(), event.subject_kind.as_str(), event.subject_id.as_str(), kind);
    r.append(":");
    match &event.semantic_window {
        Some(w) => match w.window_minutes {
            Some(m) => push_i64_decimal(&mut r, m),
            None => {},
        },
        None => {},
    }
    proof {
        reveal_strlit(":");
        assert(r@ =~= semantic_subject_key_spec(event@));
    }
    r
}

/// The key under which an event joins a compatibility group (equal to its group id).
pub fn compat_subject_key(event: &AlertEventRecord) -> (r: String)
    ensures
        r@ == crate::alerts::subject::alert_group_id_spec(event@),
{
    crate::alerts::subject::alert_group_id(event)
}


// ---------------------------------------------------------------------------
// Child windows
// ---------------------------------------------------------------------------

/// A child window being filled with consecutive events.
pub struct AlertChildWindowAccumulator {
    pub key: String,
    pub kind: AlertSemanticWindowKind,
    pub window_minutes: Option<i64>,
    pub semantic_window_start: Option<i64>,
    pub semantic_window_end: Option<i64>,
    pub events: Vec<AlertEventRecord>,
}

pub struct WindowAccModel {
    pub key: Seq<char>,
    pub kind: AlertSemanticWindowKind,
    pub window_minutes: Option<i64>,
    pub start: Option<i64>,
    pub end: Option<i64>,
    pub events: Seq<AlertEventModel>,
}

impl View for AlertChildWindowAccumulator {
    type V = WindowAccModel;

    open spec fn view(&self) -> WindowAccModel {
        WindowAccModel {
            key: self.key@,
            kind: self.kind,
            window_minutes: self.window_minutes,
            start: self.semantic_window_start,
            end: self.semantic_window_end,
            events: event_models(self.events@),
        }
    }
}

pub open spec fn acc_models(s: Seq<AlertChildWindowAccumulator>) -> Seq<WindowAccModel> {
    s.map_values(|a: AlertChildWindowAccumulator| a@)
}

/// `m * 60` fits in `i64` (window lengths are turned into seconds).
pub open spec fn minutes_ok(m: Option<i64>) -> bool {
    match m {
        Some(v) => i64::MIN <= v * 60 <= i64::MAX,
        None => true,
    }
}

/// The window length of an event, if it has a semantic window.
pub open spec fn event_minutes_ok(e: AlertEventModel) -> bool {
    match e.semantic_window {
        Some(w) => minutes_ok(w.window_minutes),
        None => true,
    }
}

/// Every event's window length fits in seconds.
pub open spec fn events_minutes_ok(s: Seq<AlertEventModel>) -> bool {
    forall|i: int| 0 <= i < s.len() ==> event_minutes_ok(#[trigger] s[i])
}

/// The window length in minutes, five when unknown.
pub open spec fn minutes_or_default(m: Option<i64>) -> int {
    match m {
        Some(v) => v as int,
        None => 5,
    }
}

/// Whether event `e` (whose window is `sem`) opens a new child window after `ws`:
/// request-rate windows close after a gap longer than their length; other
/// windows close when the window key changes.
pub open spec fn starts_new_window(ws: Seq<WindowAccModel>, e: AlertEventModel, sem: AlertSemanticWindowModel) -> bool {
    if ws.len() == 0 {
        true
    } else {
        let cur = ws.last();
        if cur.kind == AlertSemanticWindowKind::RequestRate {
            if cur.events.len() == 0 {
                true
            } else {
                sat_sub(e.occurred_at as int, cur.events.last().occurred_at as int) > minutes_or_default(cur.window_minutes) * 60
            }
        } else {
            cur.key != match sem.window_key { Some(k) => k, None => Seq::empty() }
        }
    }
}

/// A new child window holding `e`.
pub open spec fn new_window(e: AlertEventModel, sem: AlertSemanticWindowModel) -> WindowAccModel {
    WindowAccModel {
        key: match sem.window_key {
            Some(k) => k,
            None => window_kind_str(sem.kind) + seq![':'] + int_decimal(e.occurred_at as int),
        },
        kind: sem.kind,
        window_minutes: sem.window_minutes,
        start: sem.window_start,
        end: sem.window_end,
        events: seq![e],
    }
}

/// The smaller of two optional bounds, keeping whichever is present.
pub open spec fn merge_min(cur: Option<i64>, new: Option<i64>) -> Option<i64> {
    match cur {
        Some(a) => match new {
            Some(b) => Some(if a <= b { a } else { b }),
            None => Some(a),
        },
        None => new,
    }
}

/// The larger of two optional bounds, keeping whichever is present.
pub open spec fn merge_max(cur: Option<i64>, new: Option<i64>) -> Option<i64> {
    match cur {
        Some(a) => match new {
            Some(b) => Some(if a >= b { a } else { b }),
            None => Some(a),
        },
        None => new,
    }
}

/// Window `cur` with `e` added; a request-rate window widens to cover `e`'s window.
pub open spec fn extend_window(cur: WindowAccModel, e: AlertEventModel, sem: AlertSemanticWindowModel) -> WindowAccModel {
    if cur.kind == AlertSemanticWindowKind::RequestRate {
        WindowAccModel {
            events: cur.events.push(e),
            start: merge_min(cur.start, sem.window_start),
            end: merge_max(cur.end, sem.window_end),
            ..cur
        }
    } else {
        WindowAccModel { events: cur.events.push(e), ..cur }
    }
}

/// The windows after event `e` is taken in (events without a window are skipped).
pub open spec fn window_step(ws: Seq<WindowAccModel>, e: AlertEventModel) -> Seq<WindowAccModel> {
    match e.semantic_window {
        None => ws,
        Some(sem) => if starts_new_window(ws, e, sem) {
            ws.push(new_window(e, sem))
        } else {
            ws.update(ws.len() - 1, extend_window(ws.last(), e, sem))
        },
    }
}

/// The child windows of a sequence of events taken in order.
pub open spec fn windows_of(s: Seq<AlertEventModel>) -> Seq<WindowAccModel>
    decreases s.len(),
{
    if s.len() == 0 {
        Seq::empty()
    } else {
        window_step(windows_of(s.drop_last()), s.last())
    }
}

/// A window holds at least one event, and every window length in it fits in seconds.
pub open spec fn window_ok(w: WindowAccModel) -> bool {
    w.events.len() > 0 && minutes_ok(w.window_minutes) && events_minutes_ok(w.events)
}

/// Every window is well formed.
pub open spec fn windows_wf(ws: Seq<WindowAccModel>) -> bool {
    forall|i: int| 0 <= i < ws.len() ==> window_ok(#[trigger] ws[i])
}

/// The number of events held by a sequence of windows.
pub open spec fn windows_total(ws: Seq<WindowAccModel>) -> int
    decreases ws.len(),
{
    if ws.len() == 0 { 0 } else { windows_total(ws.drop_last()) + ws.last().events.len() }
}

/// The number of events that carry a semantic window.
pub open spec fn semantic_count(s: Seq<AlertEventModel>) -> int
    decreases s.len(),
{
    if s.len() == 0 {
        0
    } else {
        semantic_count(s.drop_last()) + if s.last().semantic_window is Some { 1int } else { 0int }
    }
}

/// Every event that carries a semantic window lands in exactly one child
/// window: the windows hold as many events as carry a window.
pub proof fn lemma_windows_total(s: Seq<AlertEventModel>)
    ensures
        windows_total(windows_of(s)) == semantic_count(s),
        0 <= semantic_count(s) <= s.len(),
    decreases s.len(),
{
    if s.len() > 0 {
        lemma_windows_total(s.drop_last());
        let ws = windows_of(s.drop_last());
        match s.last().semantic_window {
            Some(sem) => {
                if starts_new_window(ws, s.last(), sem) {
                    assert(ws.push(new_window(s.last(), sem)).drop_last() =~= ws);
                } else {
                    let x = extend_window(ws.last(), s.last(), sem);
                    assert(ws.update(ws.len() - 1, x).drop_last() =~= ws.drop_last());
                }
            },
            None => {},
        }
    }
}

/// The events held by windows, window after window.
pub open spec fn windows_events(ws: Seq<WindowAccModel>) -> Seq<AlertEventModel>
    decreases ws.len(),
{
    if ws.len() == 0 { Seq::empty() } else { windows_events(ws.drop_last()) + ws.last().events }
}

/// The events that carry a semantic window, in their order.
pub open spec fn semantic_events(s: Seq<AlertEventModel>) -> Seq<AlertEventModel>
    decreases s.len(),
{
    if s.len() == 0 {
        Seq::empty()
    } else if s.last().semantic_window is Some {
        semantic_events(s.drop_last()).push(s.last())
    } else {
        semantic_events(s.drop_last())
    }
}

/// Child windows split the events that carry a window without loss or
/// reordering: laid end to end, their events are exactly those events, in
/// the order taken.
pub proof fn lemma_windows_partition(s: Seq<AlertEventModel>)
    ensures
        windows_events(windows_of(s)) == semantic_events(s),
    decreases s.len(),
{
    if s.len() > 0 {
        lemma_windows_partition(s.drop_last());
        let ws = windows_of(s.drop_last());
        let e = s.last();
        match e.semantic_window {
            Some(sem) => {
                if starts_new_window(ws, e, sem) {
                    let out = ws.push(new_window(e, sem));
                    assert(out.drop_last() =~= ws);
                    assert(windows_events(out) =~= windows_events(ws).push(e));
                } else {
                    let x = extend_window(ws.last(), e, sem);
                    let out = ws.update(ws.len() - 1, x);
                    assert(out.drop_last() =~= ws.drop_last());
                    assert(windows_events(ws) == windows_events(ws.drop_last()) + ws.last().events);
                    assert(windows_events(out) =~= windows_events(ws).push(e));
                }
            },
            None => {},
        }
    }
}

proof fn lemma_windows_total_bounds(ws: Seq<WindowAccModel>)
    requires
        windows_wf(ws),
    ensures
        ws.len() <= windows_total(ws),
        forall|i: int| 0 <= i < ws.len() ==> (#[trigger] ws[i]).events.len() <= windows_total(ws),
    decreases ws.len(),
{
    if ws.len() > 0 {
        let p = ws.drop_last();
        assert(windows_wf(p)) by {
            assert forall|i: int| 0 <= i < p.len() implies window_ok(#[trigger] p[i]) by {
                assert(p[i] == ws[i]);
            }
        }
        lemma_windows_total_bounds(p);
        assert(window_ok(ws[ws.len() - 1]));
        assert forall|i: int| 0 <= i < ws.len() implies (#[trigger] ws[i]).events.len() <= windows_total(ws) by {
            if i < ws.len() - 1 {
                assert(ws[i] == p[i]);
            }
        }
    }
}

fn new_window_exec(event: AlertEventRecord, sem: &AlertSemanticWindow) -> (r: AlertChildWindowAccumulator)
    requires
        event@.semantic_window == Some(sem@),
    ensures
        r@ == new_window(event@, sem@),
{
    let key = match &sem.window_key {
        Some(k) => k.clone(),
        None => {
            let mut k = String::from_str(sem.kind.as_str());
            k.append(":");
            push_i64_decimal(&mut k, event.occurred_at);
            proof {
                reveal_strlit(":");
            }
            k
        },
    };
    let ghost e = event@;
    let mut events: Vec<AlertEventRecord> = Vec::new();
    events.push(event);
    let r = AlertChildWindowAccumulator {
        key,
        kind: sem.kind,
        window_minutes: sem.window_minutes,
        semantic_window_start: sem.window_start,
        semantic_window_end: sem.window_end,
        events,
    };
    assert(r@.events =~= seq![e]);
    assert(r@.key =~= new_window(e, sem@).key);
    r
}

fn merge_min_exec(cur: Option<i64>, new: Option<i64>) -> (r: Option<i64>)
    ensures
        r == merge_min(cur, new),
{
    match cur {
        Some(a) => match new {
            Some(b) => Some(if a <= b { a } else { b }),
            None => Some(a),
        },
        None => new,
    }
}

fn merge_max_exec(cur: Option<i64>, new: Option<i64>) -> (r: Option<i64>)
    ensures
        r == merge_max(cur, new),
{
    match cur {
        Some(a) => match new {
            Some(b) => Some(if a >= b { a } else { b }),
            None => Some(a),
        },
        None => new,
    }
}

/// Takes event `event` into the child windows `windows`.
fn take_into_windows(windows: &mut Vec<AlertChildWindowAccumulator>, event: AlertEventRecord)
    requires
        windows_wf(acc_models(old(windows)@)),
        event_minutes_ok(event@),
    ensures
        acc_models(final(windows)@) == window_step(acc_models(old(windows)@), event@),
        windows_wf(acc_models(final(windows)@)),
{
    let ghost ws = acc_models(windows@);
    let ghost e = event@;
    let sem = match clone_window(&event.semantic_window) {
        Some(w) => w,
        None => {
            return;
        },
    };
    let n = windows.len();
    let start_new = if n == 0 {
        true
    } else {
        let cur = &windows[n - 1];
        assert(ws[n - 1] == cur@);
        if cur.kind == AlertSemanticWindowKind::RequestRate {
            let threshold = match cur.window_minutes {
                Some(m) => m,
                None => 5,
            } * 60;
            let ne = cur.events.len();
            if ne == 0 {
                true
            } else {
                assert(cur@.events.last() == cur.events@[ne - 1]@);
                let b = saturating_sub_i64(event.occurred_at, cur.events[ne - 1].occurred_at) > threshold;
                assert(ws.last() == cur@);
                assert(b == starts_new_window(ws, e, sem@));
                b
            }
        } else {
            let k: &str = match &sem.window_key {
                Some(k) => k.as_str(),
                None => "",
            };
            proof {
                reveal_strlit("");
            }
            assert(k@ =~= match sem@.window_key { Some(kk) => kk, None => Seq::<char>::empty() });
            let b = !str_eq(cur.key.as_str(), k);
            assert(ws.last() == cur@);
            assert(b == starts_new_window(ws, e, sem@));
            b
        }
    };
    assert(start_new == starts_new_window(ws, e, sem@));
    if start_new {
        let acc = new_window_exec(event, &sem);
        windows.push(acc);
        assert(acc_models(windows@) =~= ws.push(new_window(e, sem@)));
        proof {
            let r = acc_models(windows@);
            assert forall|i: int| 0 <= i < r.len() implies window_ok(#[trigger] r[i]) by {
                if i < ws.len() {
                    assert(r[i] == ws[i]);
                } else {
                    assert(r[i].events =~= seq![e]);
                    assert(events_minutes_ok(r[i].events));
                }
            }
        }
    } else {
        let mut cur = windows.pop().unwrap();
        let ghost cur0 = cur@;
        assert(cur0 == ws.last());
        let ev_start = sem.window_start;
        let ev_end = sem.window_end;
        cur.events.push(event);
        if cur.kind == AlertSemanticWindowKind::RequestRate {
            cur.semantic_window_start = merge_min_exec(cur.semantic_window_start, ev_start);
            cur.semantic_window_end = merge_max_exec(cur.semantic_window_end, ev_end);
        }
        assert(cur@.events =~= cur0.events.push(e));
        assert(cur@ == extend_window(cur0, e, sem@));
        windows.push(cur);
        assert(acc_models(windows@) =~= ws.update(ws.len() - 1, extend_window(ws.last(), e, sem@)));
        proof {
            let r = acc_models(windows@);
            assert(window_ok(ws[ws.len() - 1]));
            assert forall|i: int| 0 <= i < r.len() implies window_ok(#[trigger] r[i]) by {
                if i < ws.len() - 1 {
                    assert(r[i] == ws[i]);
                } else {
                    let evs = r[i].events;
                    assert(evs == cur0.events.push(e));
                    assert forall|k: int| 0 <= k < evs.len() implies event_minutes_ok(#[trigger] evs[k]) by {
                        if k < evs.len() - 1 {
                            assert(evs[k] == cur0.events[k]);
                        }
                    }
                }
            }
        }
    }
}


// ---------------------------------------------------------------------------
// Child group records
// ---------------------------------------------------------------------------

/// The name of an optional window kind.
pub open spec fn opt_kind_str(w: Option<AlertSemanticWindowModel>) -> Option<Seq<char>> {
    match w {
        Some(w) => Some(window_kind_str(w.kind)),
        None => None,
    }
}

/// The child group made of `events` (newest first) under `id`: it takes its
/// subject from the newest event and its window from that event's window.
pub open spec fn child_group_spec(id: Seq<char>, events: Seq<AlertEventModel>) -> AlertGroupModel {
    let latest = events[0];
    let earliest = events.last();
    let sem = latest.semantic_window;
    AlertGroupModel {
        id,
        alert_type: latest.alert_type,
        subject_kind: latest.subject_kind,
        subject_id: latest.subject_id,
        subject_label: latest.subject_label,
        user: latest.user,
        token: latest.token,
        key: latest.key,
        request_kind: None,
        count: events.len() as i64,
        first_seen: earliest.occurred_at,
        last_seen: latest.occurred_at,
        latest_event: latest,
        grouping_kind: "child"@,
        semantic_window_kind: opt_kind_str(sem),
        semantic_window_minutes: match sem { Some(w) => w.window_minutes, None => None },
        semantic_window_start: match sem { Some(w) => w.window_start, None => None },
        semantic_window_end: match sem { Some(w) => w.window_end, None => None },
        semantic_window_key: match sem { Some(w) => w.window_key, None => None },
        child_count: 0,
        event_count: events.len() as i64,
        children: Seq::empty(),
        child_events: events,
    }
}

fn kind_name(w: &Option<AlertSemanticWindow>) -> (r: Option<String>)
    ensures
        opt_str(r) == opt_kind_str(crate::alerts::model::opt_window(*w)),
{
    match w {
        Some(v) => Some(owned(v.kind.as_str())),
        None => None,
    }
}

/// The child group record of `events` (newest first), `None` when there are none.
pub fn build_child_group_record(id: String, events: Vec<AlertEventRecord>) -> (r: Option<AlertGroupRecord>)
    requires
        events.len() <= i64::MAX,
    ensures
        events.len() == 0 <==> r is None,
        r matches Some(g) ==> g@ == child_group_spec(id@, event_models(events@)),
{
    let n = events.len();
    if n == 0 {
        return None;
    }
    let latest = events[0].duplicate();
    let first_seen = events[n - 1].occurred_at;
    let semantic = clone_window(&latest.semantic_window);
    let (minutes, start, end, key) = match &semantic {
        Some(w) => (w.window_minutes, w.window_start, w.window_end, crate::text::clone_opt_string(&w.window_key)),
        None => (None, None, None, None),
    };
    let g = AlertGroupRecord {
        id,
        alert_type: latest.alert_type.clone(),
        subject_kind: latest.subject_kind.clone(),
        subject_id: latest.subject_id.clone(),
        subject_label: latest.subject_label.clone(),
        user: clone_user(&latest.user),
        token: clone_entity(&latest.token),
        key: clone_entity(&latest.key),
        request_kind: None,
        count: n as i64,
        first_seen,
        last_seen: latest.occurred_at,
        grouping_kind: owned("child"),
        semantic_window_kind: kind_name(&semantic),
        semantic_window_minutes: minutes,
        semantic_window_start: start,
        semantic_window_end: end,
        semantic_window_key: key,
        child_count: 0,
        event_count: n as i64,
        children: Vec::new(),
        child_events: events,
        latest_event: latest,
    };
    proof {
        let em = event_models(g.child_events@);
        assert(em[0] == g.child_events@[0]@);
        assert(em.last() == g.child_events@[n - 1]@);
        assert(group_seq_models(g.children@) =~= Seq::<AlertGroupModel>::empty());
        assert(g@ == child_group_spec(g.id@, em));
    }
    Some(g)
}

/// The newest event of a request-rate window takes the whole window's range
/// and key; other windows keep their events as they are.
pub open spec fn fix_latest(w: WindowAccModel, sorted: Seq<AlertEventModel>) -> Seq<AlertEventModel> {
    if sorted.len() > 0 && w.kind == AlertSemanticWindowKind::RequestRate {
        match sorted[0].semantic_window {
            Some(sem) => sorted.update(0, AlertEventModel {
                semantic_window: Some(AlertSemanticWindowModel {
                    window_start: w.start,
                    window_end: w.end,
                    window_key: Some(w.key),
                    ..sem
                }),
                ..sorted[0]
            }),
            None => sorted,
        }
    } else {
        sorted
    }
}

/// The child group record of the `index`-th window.
pub open spec fn window_child(w: WindowAccModel, index: int) -> AlertGroupModel {
    let events = fix_latest(w, events_sorted(w.events, true));
    child_group_spec(indexed_id(semantic_group_base_id_spec(events[0]), "child"@, index), events)
}

/// The child group records of a sequence of windows.
pub open spec fn children_of(ws: Seq<WindowAccModel>) -> Seq<AlertGroupModel> {
    Seq::new(ws.len(), |i: int| window_child(ws[i], i))
}

/// The child windows of the semantic events of one subject: events are taken
/// oldest first and split into consecutive windows.
pub open spec fn semantic_children_spec(events: Seq<AlertEventModel>) -> Seq<AlertGroupModel> {
    children_of(windows_of(events_sorted(events, false)))
}


/// Applies `fix_latest` to the newest event of a window.
fn fix_latest_exec(kind: AlertSemanticWindowKind, key: &String, start: Option<i64>, end: Option<i64>, events: Vec<AlertEventRecord>) -> (r: Vec<AlertEventRecord>)
    ensures
        event_models(r@) == fix_latest(
            WindowAccModel { key: key@, kind, window_minutes: None, start, end, events: Seq::empty() },
            event_models(events@)),
        r.len() == events.len(),
{
    let ghost em = event_models(events@);
    let ghost w = WindowAccModel { key: key@, kind, window_minutes: None, start, end, events: Seq::empty() };
    let mut events = events;
    if events.len() > 0 && kind == AlertSemanticWindowKind::RequestRate {
        let mut first = events.remove(0);
        let ghost f0 = first@;
        assert(f0 == em[0]);
        match clone_window(&first.semantic_window) {
            Some(sem) => {
                first.semantic_window = Some(AlertSemanticWindow {
                    kind: sem.kind,
                    window_minutes: sem.window_minutes,
                    window_start: start,
                    window_end: end,
                    window_key: Some(key.clone()),
                });
                events.insert(0, first);
                assert(event_models(events@) =~= fix_latest(w, em));
            },
            None => {
                events.insert(0, first);
                assert(event_models(events@) =~= em);
            },
        }
    } else {
        assert(em == fix_latest(w, em));
    }
    events
}

/// `fix_latest` depends on the window's key, kind and range only.
proof fn lemma_fix_latest_fields(w1: WindowAccModel, w2: WindowAccModel, s: Seq<AlertEventModel>)
    requires
        w1.key == w2.key,
        w1.kind == w2.kind,
        w1.start == w2.start,
        w1.end == w2.end,
    ensures
        fix_latest(w1, s) == fix_latest(w2, s),
{
}

/// Splits the semantic events of one subject into child windows, oldest
/// window first, each window's events newest first.
pub fn build_semantic_child_windows(events: Vec<AlertEventRecord>) -> (r: Vec<AlertGroupRecord>)
    requires
        events.len() <= i64::MAX,
        events_minutes_ok(event_models(events@)),
    ensures
        group_seq_models(r@) == semantic_children_spec(event_models(events@)),
        groups_ok(group_seq_models(r@)),
        sum_event_counts(group_seq_models(r@)) <= events.len(),
        r.len() <= events.len(),
{
    let ghost input = event_models(events@);
    if events.len() == 0 {
        let r: Vec<AlertGroupRecord> = Vec::new();
        proof {
            assert(events_sorted(input, false).len() == 0) by {
                lemma_stable_sort_length(input, event_keys(input), false);
            }
            assert(windows_of(events_sorted(input, false)) =~= Seq::<WindowAccModel>::empty());
            assert(group_seq_models(r@) =~= semantic_children_spec(input));
            assert(group_seq_models(r@) =~= Seq::<AlertGroupModel>::empty());
        }
        return r;
    }
    let ghost items = events@;
    let asc = sort_events(events, false);
    let ghost asc_m = event_models(asc@);
    proof {
        lemma_stable_sort_length(items, event_keys(input), false);
        let pred = |e: AlertEventRecord| event_minutes_ok(e@);
        assert forall|i: int| 0 <= i < items.len() implies pred(#[trigger] items[i]) by {
            assert(input[i] == items[i]@);
        }
        lemma_stable_sort_all(items, event_keys(input), false, pred);
        assert forall|i: int| 0 <= i < asc_m.len() implies event_minutes_ok(#[trigger] asc_m[i]) by {
            assert(pred(asc@[i]));
        }
    }
    let n = asc.len();
    let mut rest = asc;
    let mut windows: Vec<AlertChildWindowAccumulator> = Vec::new();
    let mut i: usize = 0;
    while i < n
        invariant
            n == asc_m.len(),
            i <= n,
            rest.len() == n - i,
            forall|j: int| 0 <= j < rest.len() ==> #[trigger] rest@[j]@ == asc_m[i + j],
            events_minutes_ok(asc_m),
            acc_models(windows@) == windows_of(asc_m.take(i as int)),
            windows_wf(acc_models(windows@)),
        decreases n - i,
    {
        let ghost old_rest = rest@;
        let e = rest.remove(0);
        proof {
            assert(e@ == asc_m[i as int]);
            assert(event_minutes_ok(asc_m[i as int]));
            assert forall|j: int| 0 <= j < rest.len() implies #[trigger] rest@[j]@ == asc_m[i + 1 + j] by {
                assert(rest@[j] == old_rest[j + 1]);
            }
            assert(asc_m.take(i + 1).drop_last() =~= asc_m.take(i as int));
        }
        take_into_windows(&mut windows, e);
        i = i + 1;
    }
    proof {
        assert(asc_m.take(n as int) =~= asc_m);
        lemma_windows_total(asc_m);
        lemma_windows_total_bounds(acc_models(windows@));
    }
    let ghost ws = acc_models(windows@);
    let wn = windows.len();
    let out_init: Vec<AlertGroupRecord> = Vec::new();
    proof {
        assert(acc_models(windows@).take(0) =~= Seq::<WindowAccModel>::empty());
        assert(group_seq_models(out_init@) =~= Seq::<AlertGroupModel>::empty());
    }
    let mut out = out_init;
    let mut remaining = windows;
    let mut index: usize = 0;
    while index < wn
        invariant
            wn == ws.len(),
            ws == windows_of(asc_m),
            index <= wn,
            remaining.len() == wn - index,
            forall|j: int| 0 <= j < remaining.len() ==> #[trigger] remaining@[j]@ == ws[index + j],
            windows_wf(ws),
            n <= i64::MAX,
            wn <= n,
            forall|j: int| 0 <= j < ws.len() ==> (#[trigger] ws[j]).events.len() <= n,
            group_seq_models(out@) == children_of(ws).take(index as int),
            groups_ok(group_seq_models(out@)),
            sum_event_counts(group_seq_models(out@)) == windows_total(ws.take(index as int)),
            windows_total(ws) <= n,
            out.len() == index,
        decreases wn - index,
    {
        let ghost old_rem = remaining@;
        let w = remaining.remove(0);
        let ghost wm = w@;
        proof {
            assert(wm == ws[index as int]);
            assert(wm.events.len() > 0);
            assert forall|j: int| 0 <= j < remaining.len() implies #[trigger] remaining@[j]@ == ws[index + 1 + j] by {
                assert(remaining@[j] == old_rem[j + 1]);
            }
        }
        let AlertChildWindowAccumulator { key, kind, window_minutes, semantic_window_start, semantic_window_end, events: wevents } = w;
        let sorted = sort_events(wevents, true);
        proof {
            lemma_stable_sort_length(wm.events, event_keys(wm.events), true);
        }
        let fixed = fix_latest_exec(kind, &key, semantic_window_start, semantic_window_end, sorted);
        proof {
            lemma_fix_latest_fields(
                WindowAccModel { key: key@, kind, window_minutes: None, start: semantic_window_start, end: semantic_window_end, events: Seq::empty() },
                wm, events_sorted(wm.events, true));
            assert(fixed@[0]@ == event_models(fixed@)[0]);
        }
        let parent_id = semantic_group_base_id(&fixed[0]);
        let id = child_group_id(parent_id.as_str(), index);
        let ghost old_out = out@;
        let child = build_child_group_record(id, fixed);
        match child {
            Some(c) => {
                out.push(c);
                proof {
                    assert(c@ == window_child(wm, index as int));
                    lemma_group_seq_models_push(old_out, c);
                    assert(group_seq_models(out@) =~= children_of(ws).take(index + 1));
                    assert(window_ok(wm));
                    let srt = events_sorted(wm.events, true);
                    let pred = |e: AlertEventModel| event_minutes_ok(e);
                    assert forall|k: int| 0 <= k < wm.events.len() implies pred(#[trigger] wm.events[k]) by {}
                    lemma_stable_sort_all(wm.events, event_keys(wm.events), true, pred);
                    assert(pred(srt[0]));
                    assert(minutes_ok(c@.semantic_window_minutes));
                    assert(c@.event_count == wm.events.len());
                    lemma_sum_push(group_seq_models(old_out), c@);
                    assert(ws.take(index + 1).drop_last() =~= ws.take(index as int));
                    let om = group_seq_models(out@);
                    assert forall|k: int| 0 <= k < om.len() implies (#[trigger] om[k]).event_count >= 0 && minutes_ok(om[k].semantic_window_minutes) by {
                        if k < om.len() - 1 {
                            assert(om[k] == group_seq_models(old_out)[k]);
                        }
                    }
                }
            },
            None => {
                assert(false);
            },
        }
        index = index + 1;
    }
    proof {
        assert(children_of(ws).take(wn as int) =~= children_of(ws));
        assert(ws.take(wn as int) =~= ws);
    }
    out
}


// ---------------------------------------------------------------------------
// Sorting groups
// ---------------------------------------------------------------------------

/// Which order groups are sorted in.
pub enum GroupOrder {
    /// Oldest first: `(first_seen, id)` ascending.
    FirstSeenAsc,
    /// Newest first: `(last_seen, id)` descending.
    LastSeenDesc,
    /// Top-level order: `(last_seen, count, alert_type, id)` descending.
    TopLevelDesc,
}

/// The sort key of a group for an order.
pub open spec fn group_key(g: AlertGroupModel, order: GroupOrder) -> OrdKeyModel {
    match order {
        GroupOrder::FirstSeenAsc => OrdKeyModel { n1: g.first_seen as int, n2: 0, s1: g.id, s2: Seq::empty() },
        GroupOrder::LastSeenDesc => OrdKeyModel { n1: g.last_seen as int, n2: 0, s1: g.id, s2: Seq::empty() },
        GroupOrder::TopLevelDesc => OrdKeyModel { n1: g.last_seen as int, n2: g.count as int, s1: g.alert_type, s2: g.id },
    }
}

/// The sort keys of a sequence of groups.
pub open spec fn group_keys(s: Seq<AlertGroupModel>, order: GroupOrder) -> Seq<OrdKeyModel> {
    s.map_values(|g: AlertGroupModel| group_key(g, order))
}

/// Whether an order is descending.
pub open spec fn order_desc(order: GroupOrder) -> bool {
    match order {
        GroupOrder::FirstSeenAsc => false,
        _ => true,
    }
}

/// Groups stably sorted in an order.
pub open spec fn groups_sorted(s: Seq<AlertGroupModel>, order: GroupOrder) -> Seq<AlertGroupModel> {
    stable_sort(s, group_keys(s, order), order_desc(order)).0
}

fn group_sort_key(g: &AlertGroupRecord, order: &GroupOrder) -> (k: OrdKey)
    ensures
        k@ == group_key(g@, *order),
{
    match order {
        GroupOrder::FirstSeenAsc => OrdKey { n1: g.first_seen, n2: 0, s1: g.id.clone(), s2: String::new() },
        GroupOrder::LastSeenDesc => OrdKey { n1: g.last_seen, n2: 0, s1: g.id.clone(), s2: String::new() },
        GroupOrder::TopLevelDesc => OrdKey { n1: g.last_seen, n2: g.count, s1: g.alert_type.clone(), s2: g.id.clone() },
    }
}

/// Sorts groups stably in an order.
pub fn sort_groups(groups: Vec<AlertGroupRecord>, order: GroupOrder) -> (r: Vec<AlertGroupRecord>)
    ensures
        group_seq_models(r@) == groups_sorted(group_seq_models(groups@), order),
        r.len() == groups.len(),
{
    let ghost gm = group_seq_models(groups@);
    proof {
        lemma_group_seq_models_index(groups@);
    }
    let mut keys: Vec<OrdKey> = Vec::new();
    let mut i: usize = 0;
    while i < groups.len()
        invariant
            i <= groups.len(),
            keys.len() == i,
            gm == group_seq_models(groups@),
            gm.len() == groups.len(),
            forall|j: int| 0 <= j < groups.len() ==> #[trigger] gm[j] == groups@[j]@,
            forall|j: int| 0 <= j < i ==> #[trigger] keys@[j]@ == group_key(gm[j], order),
        decreases groups.len() - i,
    {
        proof {
            assert(gm[i as int] == groups@[i as int]@);
        }
        keys.push(group_sort_key(&groups[i], &order));
        i = i + 1;
    }
    assert(key_models(keys@) =~= group_keys(gm, order));
    let desc = match order {
        GroupOrder::FirstSeenAsc => false,
        _ => true,
    };
    let ghost items = groups@;
    let r = sort_by_keys(groups, keys, desc);
    proof {
        let f = |g: AlertGroupRecord| g@;
        lemma_stable_sort_map(items, group_keys(gm, order), desc, f);
        lemma_group_seq_models_map(items);
        lemma_group_seq_models_map(r@);
    }
    r
}

// ---------------------------------------------------------------------------
// Mother groups
// ---------------------------------------------------------------------------

/// The window kind name of a group, empty when it has none.
pub open spec fn group_kind_name(g: AlertGroupModel) -> Seq<char> {
    match g.semantic_window_kind {
        Some(k) => k,
        None => Seq::empty(),
    }
}

/// Whether child `right` (the next one in time) starts a new mother group
/// after child `left`: windows of different kinds never chain; request-rate
/// children chain when the gap is at most the window length, rolling hours
/// when it is at most an hour, days and months when they are adjacent.
pub open spec fn chain_boundary_spec(left: AlertGroupModel, right: AlertGroupModel) -> bool {
    let lk = group_kind_name(left);
    let rk = group_kind_name(right);
    let left_end = match left.semantic_window_end { Some(v) => v, None => left.last_seen };
    let right_start = match right.semantic_window_start { Some(v) => v, None => right.first_seen };
    let gap = sat_sub(right_start as int, left_end as int);
    if lk != rk {
        true
    } else if lk == "request_rate"@ {
        gap > minutes_or_default(left.semantic_window_minutes) * 60
    } else if lk == "rolling_hour"@ {
        gap > 3600
    } else if lk == "day"@ || lk == "month"@ {
        gap > 1
    } else {
        true
    }
}

/// Whether two consecutive children fall in different mother groups.
pub fn child_group_chain_boundary(left: &AlertGroupRecord, right: &AlertGroupRecord) -> (r: bool)
    requires
        minutes_ok(left.semantic_window_minutes),
    ensures
        r == chain_boundary_spec(left@, right@),
{
    let lk: &str = match &left.semantic_window_kind { Some(k) => k.as_str(), None => "" };
    let rk: &str = match &right.semantic_window_kind { Some(k) => k.as_str(), None => "" };
    proof {
        reveal_strlit("");
        assert(lk@ =~= group_kind_name(left@));
        assert(rk@ =~= group_kind_name(right@));
    }
    if !str_eq(lk, rk) {
        return true;
    }
    let left_end = match left.semantic_window_end { Some(v) => v, None => left.last_seen };
    let right_start = match right.semantic_window_start { Some(v) => v, None => right.first_seen };
    let gap = saturating_sub_i64(right_start, left_end);
    if str_eq(lk, "request_rate") {
        let threshold = match left.semantic_window_minutes { Some(m) => m, None => 5 } * 60;
        gap > threshold
    } else if str_eq(lk, "rolling_hour") {
        gap > 60 * 60
    } else if str_eq(lk, "day") || str_eq(lk, "month") {
        gap > 1
    } else {
        true
    }
}

/// The start of a child's window in seconds (its first sighting when it has none).
pub open spec fn child_window_start(g: AlertGroupModel) -> int {
    match g.semantic_window_start { Some(v) => v as int, None => g.first_seen as int }
}

/// The end of a child's window in seconds (its last sighting when it has none).
pub open spec fn child_window_end(g: AlertGroupModel) -> int {
    match g.semantic_window_end { Some(v) => v as int, None => g.last_seen as int }
}

/// Two children whose windows are both calendar days, or both calendar months,
/// are separated exactly when the right one starts more than one second after
/// the left one ends; adjacent windows of one subject therefore form a single
/// chain, and so a single mother group.
pub proof fn lemma_calendar_windows_chain_when_adjacent(left: AlertGroupModel, right: AlertGroupModel, kind: Seq<char>)
    requires
        kind == "day"@ || kind == "month"@,
        left.semantic_window_kind == Some(kind),
        right.semantic_window_kind == Some(kind),
    ensures
        chain_boundary_spec(left, right) <==> child_window_start(right) - child_window_end(left) > 1,
        child_window_start(right) - child_window_end(left) <= 1 ==> chains_of(seq![left, right]) == seq![seq![left, right]],
        child_window_start(right) - child_window_end(left) > 1 ==> chains_of(seq![left, right]) == seq![seq![left], seq![right]],
{
    reveal_strlit("day");
    reveal_strlit("month");
    reveal_strlit("request_rate");
    reveal_strlit("rolling_hour");
    assert(group_kind_name(left) == kind);
    assert(group_kind_name(right) == kind);
    assert(kind != "request_rate"@);
    assert(kind != "rolling_hour"@);
    let pair = seq![left, right];
    assert(pair.drop_last() =~= seq![left]);
    assert(seq![left].drop_last() =~= Seq::<AlertGroupModel>::empty());
    assert(chains_of(Seq::<AlertGroupModel>::empty()) == Seq::<Seq<AlertGroupModel>>::empty());
    assert(chains_of(seq![left]) == chain_step(Seq::<Seq<AlertGroupModel>>::empty(), left));
    assert(chains_of(seq![left]) =~= seq![seq![left]]);
    assert(chains_of(pair) == chain_step(chains_of(seq![left]), right));
    if child_window_start(right) - child_window_end(left) <= 1 {
        assert(seq![left].push(right) =~= pair);
        assert(chains_of(pair) =~= seq![pair]);
    } else {
        assert(chains_of(pair) =~= seq![seq![left], seq![right]]);
    }
}

/// The chains after child `c` is taken in.
pub open spec fn chain_step(chains: Seq<Seq<AlertGroupModel>>, c: AlertGroupModel) -> Seq<Seq<AlertGroupModel>> {
    if chains.len() == 0 || chains.last().len() == 0 || chain_boundary_spec(chains.last().last(), c) {
        chains.push(seq![c])
    } else {
        chains.update(chains.len() - 1, chains.last().push(c))
    }
}

/// Children (oldest first) split into chains of contiguous windows.
pub open spec fn chains_of(cs: Seq<AlertGroupModel>) -> Seq<Seq<AlertGroupModel>>
    decreases cs.len(),
{
    if cs.len() == 0 { Seq::empty() } else { chain_step(chains_of(cs.drop_last()), cs.last()) }
}

/// The sum of the event counts of groups.
pub open spec fn sum_event_counts(s: Seq<AlertGroupModel>) -> int
    decreases s.len(),
{
    if s.len() == 0 { 0 } else { sum_event_counts(s.drop_last()) + s.last().event_count }
}

/// The earliest first-seen time of non-empty groups.
pub open spec fn min_first_seen(s: Seq<AlertGroupModel>) -> i64
    decreases s.len(),
{
    if s.len() <= 1 {
        s[0].first_seen
    } else {
        let m = min_first_seen(s.drop_last());
        if s.last().first_seen < m { s.last().first_seen } else { m }
    }
}

/// The latest last-seen time of non-empty groups.
pub open spec fn max_last_seen(s: Seq<AlertGroupModel>) -> i64
    decreases s.len(),
{
    if s.len() <= 1 {
        s[0].last_seen
    } else {
        let m = max_last_seen(s.drop_last());
        if s.last().last_seen > m { s.last().last_seen } else { m }
    }
}

/// The earliest window start among groups that have one.
pub open spec fn min_window_start(s: Seq<AlertGroupModel>) -> Option<i64>
    decreases s.len(),
{
    if s.len() == 0 { None } else { merge_min(min_window_start(s.drop_last()), s.last().semantic_window_start) }
}

/// The latest window end among groups that have one.
pub open spec fn max_window_end(s: Seq<AlertGroupModel>) -> Option<i64>
    decreases s.len(),
{
    if s.len() == 0 { None } else { merge_max(max_window_end(s.drop_last()), s.last().semantic_window_end) }
}

/// The mother group of the `index`-th chain: its children newest first, its
/// subject and newest event from the newest child, its range covering all
/// children and its count summing theirs.
pub open spec fn mother_spec(chain: Seq<AlertGroupModel>, index: int) -> AlertGroupModel {
    let sorted = groups_sorted(chain, GroupOrder::LastSeenDesc);
    let latest = sorted[0];
    let total = sum_event_counts(sorted);
    AlertGroupModel {
        id: indexed_id(semantic_group_base_id_spec(latest.latest_event), "mother"@, index),
        alert_type: latest.alert_type,
        subject_kind: latest.subject_kind,
        subject_id: latest.subject_id,
        subject_label: latest.subject_label,
        user: latest.user,
        token: latest.token,
        key: latest.key,
        request_kind: None,
        count: total as i64,
        first_seen: min_first_seen(sorted),
        last_seen: max_last_seen(sorted),
        latest_event: latest.latest_event,
        grouping_kind: "mother"@,
        semantic_window_kind: latest.semantic_window_kind,
        semantic_window_minutes: latest.semantic_window_minutes,
        semantic_window_start: min_window_start(sorted),
        semantic_window_end: max_window_end(sorted),
        semantic_window_key: None,
        child_count: sorted.len() as i64,
        event_count: total as i64,
        children: sorted,
        child_events: Seq::empty(),
    }
}

/// The mother groups of the children of one subject.
pub open spec fn semantic_mothers_spec(children: Seq<AlertGroupModel>) -> Seq<AlertGroupModel> {
    let chains = chains_of(groups_sorted(children, GroupOrder::FirstSeenAsc));
    Seq::new(chains.len(), |i: int| mother_spec(chains[i], i))
}


/// Sorted groups are the same groups, in order: none comes after a group it
/// goes before in that order.
pub proof fn lemma_groups_sorted_in_order(s: Seq<AlertGroupModel>, order: GroupOrder)
    ensures
        groups_sorted(s, order).to_multiset() == s.to_multiset(),
        forall|i: int, j: int| 0 <= i < j < groups_sorted(s, order).len() ==>
            !key_before(group_key(#[trigger] groups_sorted(s, order)[j], order), group_key(#[trigger] groups_sorted(s, order)[i], order), order_desc(order)),
{
    let g = |x: AlertGroupModel| group_key(x, order);
    assert(group_keys(s, order) == s.map_values(g));
    lemma_stable_sort_permutation(s, group_keys(s, order), order_desc(order));
    lemma_stable_sort_sorted(s, group_keys(s, order), order_desc(order));
    lemma_stable_sort_keys_of_items(s, order_desc(order), g);
    lemma_stable_sort_length(s, group_keys(s, order), order_desc(order));
    let r = groups_sorted(s, order);
    let ks = stable_sort(s, group_keys(s, order), order_desc(order)).1;
    assert forall|i: int, j: int| 0 <= i < j < r.len() implies
        !key_before(group_key(#[trigger] r[j], order), group_key(#[trigger] r[i], order), order_desc(order)) by {
        assert(ks[i] == group_key(r[i], order) && ks[j] == group_key(r[j], order));
    }
}

/// Chains split the children without loss or reordering: laid end to end
/// they give the children back, none is empty, neighbours within a chain are
/// contiguous, and each chain ends where the next one's first child is not.
pub proof fn lemma_chains_partition(cs: Seq<AlertGroupModel>)
    ensures
        chains_of(cs).flatten() == cs,
        forall|i: int| 0 <= i < chains_of(cs).len() ==> #[trigger] chains_of(cs)[i].len() > 0,
        forall|i: int, j: int| 0 <= i < chains_of(cs).len() && 0 <= j < chains_of(cs)[i].len() - 1 ==>
            !chain_boundary_spec(#[trigger] chains_of(cs)[i][j], chains_of(cs)[i][j + 1]),
        forall|i: int| 0 <= i < chains_of(cs).len() - 1 ==>
            chain_boundary_spec(#[trigger] chains_of(cs)[i].last(), chains_of(cs)[i + 1][0]),
    decreases cs.len(),
{
    lemma_chains_flatten_alt(cs);
    chains_of(cs).lemma_flatten_and_flatten_alt_are_equivalent();
}

proof fn lemma_chains_flatten_alt(cs: Seq<AlertGroupModel>)
    ensures
        chains_of(cs).flatten_alt() == cs,
        forall|i: int| 0 <= i < chains_of(cs).len() ==> #[trigger] chains_of(cs)[i].len() > 0,
        forall|i: int, j: int| 0 <= i < chains_of(cs).len() && 0 <= j < chains_of(cs)[i].len() - 1 ==>
            !chain_boundary_spec(#[trigger] chains_of(cs)[i][j], chains_of(cs)[i][j + 1]),
        forall|i: int| 0 <= i < chains_of(cs).len() - 1 ==>
            chain_boundary_spec(#[trigger] chains_of(cs)[i].last(), chains_of(cs)[i + 1][0]),
    decreases cs.len(),
{
    if cs.len() == 0 {
        assert(chains_of(cs) =~= Seq::<Seq<AlertGroupModel>>::empty());
    } else {
        let prev = chains_of(cs.drop_last());
        let c = cs.last();
        lemma_chains_flatten_alt(cs.drop_last());
        let out = chains_of(cs);
        assert(out == chain_step(prev, c));
        if prev.len() == 0 || prev.last().len() == 0 || chain_boundary_spec(prev.last().last(), c) {
            assert(out == prev.push(seq![c]));
            assert(out.drop_last() =~= prev);
            assert(out.flatten_alt() == prev.flatten_alt() + seq![c]);
            assert(cs.drop_last() + seq![c] =~= cs);
            assert forall|i: int, j: int| 0 <= i < out.len() && 0 <= j < out[i].len() - 1 implies
                !chain_boundary_spec(#[trigger] out[i][j], out[i][j + 1]) by {
                if i < prev.len() {
                    assert(out[i] == prev[i]);
                }
            }
            assert forall|i: int| 0 <= i < out.len() - 1 implies
                chain_boundary_spec(#[trigger] out[i].last(), out[i + 1][0]) by {
                if i < prev.len() - 1 {
                    assert(out[i] == prev[i] && out[i + 1] == prev[i + 1]);
                } else {
                    assert(out[i] == prev[i] && out[i + 1] == seq![c]);
                }
            }
        } else {
            let n = prev.len() - 1;
            let last = prev.last().push(c);
            assert(out == prev.update(n, last));
            assert(out.drop_last() =~= prev.drop_last());
            assert(out.last() == last);
            assert(prev.flatten_alt() == prev.drop_last().flatten_alt() + prev.last());
            assert(out.flatten_alt() == prev.drop_last().flatten_alt() + last);
            assert(prev.drop_last().flatten_alt() + last =~= (prev.drop_last().flatten_alt() + prev.last()) + seq![c]);
            assert(cs.drop_last() + seq![c] =~= cs);
            assert forall|i: int| 0 <= i < out.len() implies #[trigger] out[i].len() > 0 by {
                if i < n {
                    assert(out[i] == prev[i]);
                }
            }
            assert forall|i: int, j: int| 0 <= i < out.len() && 0 <= j < out[i].len() - 1 implies
                !chain_boundary_spec(#[trigger] out[i][j], out[i][j + 1]) by {
                if i < n {
                    assert(out[i] == prev[i]);
                } else {
                    assert(out[i] == last);
                    if j < prev.last().len() - 1 {
                        assert(last[j] == prev[n][j] && last[j + 1] == prev[n][j + 1]);
                    } else {
                        assert(last[j] == prev.last().last() && last[j + 1] == c);
                    }
                }
            }
            assert forall|i: int| 0 <= i < out.len() - 1 implies
                chain_boundary_spec(#[trigger] out[i].last(), out[i + 1][0]) by {
                assert(out[i] == prev[i]);
                if i + 1 < n {
                    assert(out[i + 1] == prev[i + 1]);
                } else {
                    assert(out[i + 1] == last && last[0] == prev[n][0]);
                }
            }
        }
    }
}

/// Every mother gathers the children of one chain: as many mothers as
/// chains, each holding exactly that chain's children (newest first), and
/// the chains laid end to end give all the children, oldest first.
pub proof fn lemma_mothers_partition(children: Seq<AlertGroupModel>)
    ensures
        ({
            let sorted = groups_sorted(children, GroupOrder::FirstSeenAsc);
            let chains = chains_of(sorted);
            &&& sorted.to_multiset() == children.to_multiset()
            &&& chains.flatten() == sorted
            &&& semantic_mothers_spec(children).len() == chains.len()
            &&& forall|i: int| 0 <= i < chains.len() ==>
                (#[trigger] semantic_mothers_spec(children)[i]).children.to_multiset() == chains[i].to_multiset()
        }),
{
    let sorted = groups_sorted(children, GroupOrder::FirstSeenAsc);
    let chains = chains_of(sorted);
    lemma_groups_sorted_in_order(children, GroupOrder::FirstSeenAsc);
    lemma_chains_partition(sorted);
    assert forall|i: int| 0 <= i < chains.len() implies
        (#[trigger] semantic_mothers_spec(children)[i]).children.to_multiset() == chains[i].to_multiset() by {
        lemma_groups_sorted_in_order(chains[i], GroupOrder::LastSeenDesc);
    }
}

/// The sum of the event counts of every chain.
pub open spec fn chains_total(cs: Seq<Seq<AlertGroupModel>>) -> int
    decreases cs.len(),
{
    if cs.len() == 0 { 0 } else { chains_total(cs.drop_last()) + sum_event_counts(cs.last()) }
}

proof fn lemma_chains_total_of(cs: Seq<AlertGroupModel>)
    ensures
        chains_total(chains_of(cs)) == sum_event_counts(cs),
    decreases cs.len(),
{
    if cs.len() > 0 {
        lemma_chains_total_of(cs.drop_last());
        lemma_chains_total_step(chains_of(cs.drop_last()), cs.last());
    }
}

/// A mother group holds exactly the children of its chain, newest sighting
/// first; it counts them as its children, its events and count are the sum of
/// theirs, and it is a mother group of the newest child's subject carrying
/// that child's latest event.
pub proof fn lemma_mother_holds_its_chain(chain: Seq<AlertGroupModel>, index: int)
    requires
        chain.len() > 0,
        chain.len() <= i64::MAX,
        0 <= sum_event_counts(chain) <= i64::MAX,
    ensures
        mother_spec(chain, index).children.to_multiset() == chain.to_multiset(),
        mother_spec(chain, index).children.len() == chain.len(),
        mother_spec(chain, index).child_count == chain.len(),
        mother_spec(chain, index).event_count == sum_event_counts(chain),
        mother_spec(chain, index).count == sum_event_counts(chain),
        mother_spec(chain, index).grouping_kind == "mother"@,
        forall|i: int, j: int| 0 <= i < j < chain.len() ==>
            (#[trigger] mother_spec(chain, index).children[i]).last_seen >= (#[trigger] mother_spec(chain, index).children[j]).last_seen,
        mother_spec(chain, index).subject_id == mother_spec(chain, index).children[0].subject_id,
        mother_spec(chain, index).latest_event == mother_spec(chain, index).children[0].latest_event,
{
    let sorted = groups_sorted(chain, GroupOrder::LastSeenDesc);
    lemma_groups_sorted_in_order(chain, GroupOrder::LastSeenDesc);
    lemma_stable_sort_length(chain, group_keys(chain, GroupOrder::LastSeenDesc), true);
    lemma_sum_stable_sort(chain, group_keys(chain, GroupOrder::LastSeenDesc), true);
    assert forall|i: int, j: int| 0 <= i < j < chain.len() implies
        (#[trigger] sorted[i]).last_seen >= (#[trigger] sorted[j]).last_seen by {
        assert(!key_before(group_key(sorted[j], GroupOrder::LastSeenDesc), group_key(sorted[i], GroupOrder::LastSeenDesc), true));
    }
}

/// Rolling children up into mothers keeps every event: the children of the
/// mothers, chain by chain, hold as many events as the children given.
pub proof fn lemma_mothers_keep_event_counts(children: Seq<AlertGroupModel>)
    ensures
        ({
            let chains = chains_of(groups_sorted(children, GroupOrder::FirstSeenAsc));
            &&& chains_total(chains) == sum_event_counts(children)
            &&& forall|i: int| 0 <= i < chains.len() ==>
                sum_event_counts((#[trigger] semantic_mothers_spec(children)[i]).children) == sum_event_counts(chains[i])
        }),
{
    let sorted = groups_sorted(children, GroupOrder::FirstSeenAsc);
    let chains = chains_of(sorted);
    lemma_chains_total_of(sorted);
    lemma_sum_stable_sort(children, group_keys(children, GroupOrder::FirstSeenAsc), false);
    assert forall|i: int| 0 <= i < chains.len() implies
        sum_event_counts((#[trigger] semantic_mothers_spec(children)[i]).children) == sum_event_counts(chains[i]) by {
        lemma_sum_stable_sort(chains[i], group_keys(chains[i], GroupOrder::LastSeenDesc), true);
    }
}

proof fn lemma_sum_push(s: Seq<AlertGroupModel>, x: AlertGroupModel)
    ensures
        sum_event_counts(s.push(x)) == sum_event_counts(s) + x.event_count,
{
    assert(s.push(x).drop_last() =~= s);
}

proof fn lemma_sum_insert(s: Seq<AlertGroupModel>, p: int, x: AlertGroupModel)
    requires
        0 <= p <= s.len(),
    ensures
        sum_event_counts(s.insert(p, x)) == sum_event_counts(s) + x.event_count,
    decreases s.len(),
{
    if p == s.len() {
        assert(s.insert(p, x) =~= s.push(x));
        lemma_sum_push(s, x);
    } else {
        lemma_sum_insert(s.drop_last(), p, x);
        assert(s.insert(p, x).drop_last() =~= s.drop_last().insert(p, x));
        assert(s.insert(p, x).last() == s.last());
    }
}

proof fn lemma_sum_stable_sort(s: Seq<AlertGroupModel>, keys: Seq<OrdKeyModel>, desc: bool)
    requires
        s.len() == keys.len(),
    ensures
        sum_event_counts(stable_sort(s, keys, desc).0) == sum_event_counts(s),
    decreases s.len(),
{
    if s.len() > 0 {
        lemma_sum_stable_sort(s.drop_last(), keys.drop_last(), desc);
        lemma_stable_sort_length(s.drop_last(), keys.drop_last(), desc);
        let rest = stable_sort(s.drop_last(), keys.drop_last(), desc);
        let p = crate::sort::insert_pos_from(rest.1, keys.last(), desc, 0);
        crate::sort::lemma_insert_pos_in_range(rest.1, keys.last(), desc);
        lemma_sum_insert(rest.0, p, s.last());
    }
}

/// Every group has a non-negative event count and a window length that fits in seconds.
pub open spec fn groups_ok(s: Seq<AlertGroupModel>) -> bool {
    forall|i: int| 0 <= i < s.len() ==> (#[trigger] s[i]).event_count >= 0 && minutes_ok(s[i].semantic_window_minutes)
}

proof fn lemma_sum_prefix(s: Seq<AlertGroupModel>, i: int)
    requires
        groups_ok(s),
        0 <= i <= s.len(),
    ensures
        0 <= sum_event_counts(s.take(i)) <= sum_event_counts(s),
    decreases s.len() - i,
{
    if i < s.len() {
        lemma_sum_prefix(s, i + 1);
        assert(s.take(i + 1).drop_last() =~= s.take(i));
        assert(s[i].event_count >= 0);
        let t = s.take(i);
        assert(groups_ok(t)) by {
            assert forall|j: int| 0 <= j < t.len() implies (#[trigger] t[j]).event_count >= 0 && minutes_ok(t[j].semantic_window_minutes) by {
                assert(t[j] == s[j]);
            }
        }
        lemma_sum_nonneg(t);
    } else {
        assert(s.take(i) =~= s);
        lemma_sum_nonneg(s);
    }
}

proof fn lemma_sum_nonneg(s: Seq<AlertGroupModel>)
    requires
        groups_ok(s),
    ensures
        sum_event_counts(s) >= 0,
    decreases s.len(),
{
    if s.len() > 0 {
        let p = s.drop_last();
        assert(groups_ok(p)) by {
            assert forall|i: int| 0 <= i < p.len() implies (#[trigger] p[i]).event_count >= 0 && minutes_ok(p[i].semantic_window_minutes) by {
                assert(p[i] == s[i]);
            }
        }
        lemma_sum_nonneg(p);
        assert(s[s.len() - 1].event_count >= 0);
    }
}

proof fn lemma_chains_total_step(cs: Seq<Seq<AlertGroupModel>>, c: AlertGroupModel)
    ensures
        chains_total(chain_step(cs, c)) == chains_total(cs) + c.event_count,
{
    if cs.len() == 0 || cs.last().len() == 0 || chain_boundary_spec(cs.last().last(), c) {
        assert(cs.push(seq![c]).drop_last() =~= cs);
        assert(seq![c].drop_last() =~= Seq::<AlertGroupModel>::empty());
        assert(sum_event_counts(Seq::<AlertGroupModel>::empty()) == 0);
        assert(seq![c].last() == c);
        assert(sum_event_counts(seq![c]) == c.event_count);
    } else {
        assert(cs.update(cs.len() - 1, cs.last().push(c)).drop_last() =~= cs.drop_last());
        lemma_sum_push(cs.last(), c);
    }
}

proof fn lemma_chain_le_total(cs: Seq<Seq<AlertGroupModel>>, k: int)
    requires
        0 <= k < cs.len(),
        forall|i: int| 0 <= i < cs.len() ==> sum_event_counts(#[trigger] cs[i]) >= 0,
    ensures
        sum_event_counts(cs[k]) <= chains_total(cs),
        chains_total(cs) >= 0,
    decreases cs.len(),
{
    let p = cs.drop_last();
    if cs.len() > 1 {
        assert forall|i: int| 0 <= i < p.len() implies sum_event_counts(#[trigger] p[i]) >= 0 by {
            assert(p[i] == cs[i]);
        }
        if k < cs.len() - 1 {
            lemma_chain_le_total(p, k);
            assert(p[k] == cs[k]);
        } else {
            lemma_chain_le_total(p, 0);
        }
        assert(sum_event_counts(cs[cs.len() - 1]) >= 0);
        assert(cs.last() == cs[cs.len() - 1]);
    } else {
        assert(p =~= Seq::<Seq<AlertGroupModel>>::empty());
        assert(chains_total(p) == 0);
        assert(cs.last() == cs[0]);
        assert(sum_event_counts(cs[0]) >= 0);
    }
}

/// The models of a sequence of chains.
pub open spec fn chain_models(s: Seq<Vec<AlertGroupRecord>>) -> Seq<Seq<AlertGroupModel>> {
    s.map_values(|c: Vec<AlertGroupRecord>| group_seq_models(c@))
}


proof fn lemma_groups_ok_sorted(s: Seq<AlertGroupModel>, order: GroupOrder)
    requires
        groups_ok(s),
    ensures
        groups_ok(groups_sorted(s, order)),
        groups_sorted(s, order).len() == s.len(),
        sum_event_counts(groups_sorted(s, order)) == sum_event_counts(s),
{
    let keys = group_keys(s, order);
    lemma_stable_sort_length(s, keys, order_desc(order));
    let pred = |g: AlertGroupModel| g.event_count >= 0 && minutes_ok(g.semantic_window_minutes);
    assert forall|i: int| 0 <= i < s.len() implies pred(#[trigger] s[i]) by {}
    lemma_stable_sort_all(s, keys, order_desc(order), pred);
    let r = groups_sorted(s, order);
    assert forall|i: int| 0 <= i < r.len() implies (#[trigger] r[i]).event_count >= 0 && minutes_ok(r[i].semantic_window_minutes) by {
        assert(pred(r[i]));
    }
    lemma_sum_stable_sort(s, keys, order_desc(order));
}

/// The mother group of one chain of children.
fn build_mother(chain: Vec<AlertGroupRecord>, index: usize) -> (r: AlertGroupRecord)
    requires
        chain.len() > 0,
        chain.len() <= i64::MAX,
        index <= i64::MAX,
        groups_ok(group_seq_models(chain@)),
        sum_event_counts(group_seq_models(chain@)) <= i64::MAX,
    ensures
        r@ == mother_spec(group_seq_models(chain@), index as int),
{
    let ghost cm = group_seq_models(chain@);
    proof {
        lemma_group_seq_models_index(chain@);
        lemma_groups_ok_sorted(cm, GroupOrder::LastSeenDesc);
    }
    let sorted = sort_groups(chain, GroupOrder::LastSeenDesc);
    let ghost sm = group_seq_models(sorted@);
    proof {
        lemma_group_seq_models_index(sorted@);
        lemma_sum_prefix(sm, sm.len() as int);
    }
    let n = sorted.len();
    assert(sm[0] == sorted@[0]@);
    let mut total: i64 = 0;
    let mut first_seen: i64 = sorted[0].first_seen;
    let mut last_seen: i64 = sorted[0].last_seen;
    let mut start: Option<i64> = None;
    let mut end: Option<i64> = None;
    let mut i: usize = 0;
    while i < n
        invariant
            n == sm.len(),
            n == sorted.len(),
            n > 0,
            i <= n,
            sm == group_seq_models(sorted@),
            forall|j: int| 0 <= j < n ==> #[trigger] sm[j] == sorted@[j]@,
            groups_ok(sm),
            sum_event_counts(sm) <= i64::MAX,
            total as int == sum_event_counts(sm.take(i as int)),
            i >= 1 ==> first_seen == min_first_seen(sm.take(i as int)),
            i >= 1 ==> last_seen == max_last_seen(sm.take(i as int)),
            i == 0 ==> first_seen == sm[0].first_seen && last_seen == sm[0].last_seen,
            start == min_window_start(sm.take(i as int)),
            end == max_window_end(sm.take(i as int)),
        decreases n - i,
    {
        let g = &sorted[i];
        proof {
            assert(sm[i as int] == g@);
            assert(sm.take(i + 1).drop_last() =~= sm.take(i as int));
            assert(sm.take(i + 1).last() == sm[i as int]);
            lemma_sum_prefix(sm, i + 1);
        }
        total = total + g.event_count;
        if i > 0 {
            if g.first_seen < first_seen {
                first_seen = g.first_seen;
            }
            if g.last_seen > last_seen {
                last_seen = g.last_seen;
            }
        }
        start = merge_min_exec(start, g.semantic_window_start);
        end = merge_max_exec(end, g.semantic_window_end);
        i = i + 1;
    }
    proof {
        assert(sm.take(n as int) =~= sm);
    }
    let latest = &sorted[0];
    let id = semantic_mother_id_from_child(&latest.latest_event, index);
    let r = AlertGroupRecord {
        id,
        alert_type: latest.alert_type.clone(),
        subject_kind: latest.subject_kind.clone(),
        subject_id: latest.subject_id.clone(),
        subject_label: latest.subject_label.clone(),
        user: clone_user(&latest.user),
        token: clone_entity(&latest.token),
        key: clone_entity(&latest.key),
        request_kind: None,
        count: total,
        first_seen,
        last_seen,
        latest_event: latest.latest_event.duplicate(),
        grouping_kind: owned("mother"),
        semantic_window_kind: crate::text::clone_opt_string(&latest.semantic_window_kind),
        semantic_window_minutes: latest.semantic_window_minutes,
        semantic_window_start: start,
        semantic_window_end: end,
        semantic_window_key: None,
        child_count: n as i64,
        event_count: total,
        children: sorted,
        child_events: Vec::new(),
    };
    proof {
        assert(event_models(r.child_events@) =~= Seq::<AlertEventModel>::empty());
        assert(r@ == mother_spec(cm, index as int));
    }
    r
}

/// Rolls the child windows of one subject up into mother groups of
/// contiguous windows, oldest mother first.
pub fn build_semantic_mother_groups(children: Vec<AlertGroupRecord>) -> (r: Vec<AlertGroupRecord>)
    requires
        children.len() <= i64::MAX,
        groups_ok(group_seq_models(children@)),
        sum_event_counts(group_seq_models(children@)) <= i64::MAX,
    ensures
        group_seq_models(r@) == semantic_mothers_spec(group_seq_models(children@)),
{
    let ghost cm = group_seq_models(children@);
    proof {
        lemma_groups_ok_sorted(cm, GroupOrder::FirstSeenAsc);
    }
    if children.len() == 0 {
        let r: Vec<AlertGroupRecord> = Vec::new();
        proof {
            assert(chains_of(groups_sorted(cm, GroupOrder::FirstSeenAsc)) =~= Seq::<Seq<AlertGroupModel>>::empty());
            assert(group_seq_models(r@) =~= semantic_mothers_spec(cm));
        }
        return r;
    }
    let asc = sort_groups(children, GroupOrder::FirstSeenAsc);
    let ghost am = group_seq_models(asc@);
    proof {
        lemma_group_seq_models_index(asc@);
    }
    let n = asc.len();
    let mut rest = asc;
    let mut chains: Vec<Vec<AlertGroupRecord>> = Vec::new();
    let mut i: usize = 0;
    while i < n
        invariant
            n == am.len(),
            i <= n,
            groups_ok(am),
            sum_event_counts(am) <= i64::MAX,
            rest.len() == n - i,
            forall|j: int| 0 <= j < rest.len() ==> #[trigger] rest@[j]@ == am[i + j],
            chain_models(chains@) == chains_of(am.take(i as int)),
            chains_total(chain_models(chains@)) == sum_event_counts(am.take(i as int)),
            forall|c: int| 0 <= c < chains.len() ==> (#[trigger] chains@[c]).len() > 0,
            forall|c: int| 0 <= c < chains.len() ==> groups_ok(#[trigger] chain_models(chains@)[c]),
            forall|c: int| 0 <= c < chains.len() ==> (#[trigger] chains@[c]).len() <= i,
            chains.len() <= i,
        decreases n - i,
    {
        let ghost old_rest = rest@;
        let ghost old_chains = chain_models(chains@);
        let child = rest.remove(0);
        proof {
            assert(child@ == am[i as int]);
            assert forall|j: int| 0 <= j < rest.len() implies #[trigger] rest@[j]@ == am[i + 1 + j] by {
                assert(rest@[j] == old_rest[j + 1]);
            }
            assert(am.take(i + 1).drop_last() =~= am.take(i as int));
            assert(am.take(i + 1).last() == am[i as int]);
            lemma_chains_total_step(old_chains, child@);
            lemma_sum_push(am.take(i as int), am[i as int]);
            assert(am.take(i + 1) =~= am.take(i as int).push(am[i as int]));
        }
        let nc = chains.len();
        let start_new = if nc == 0 {
            true
        } else {
            let last_chain = &chains[nc - 1];
            let lc = last_chain.len();
            if lc == 0 {
                true
            } else {
                proof {
                    assert(old_chains[nc - 1] == group_seq_models(last_chain@));
                    lemma_group_seq_models_index(last_chain@);
                    assert(groups_ok(old_chains[nc - 1]));
                    assert(old_chains[nc - 1][lc - 1] == last_chain@[lc - 1]@);
                }
                child_group_chain_boundary(&last_chain[lc - 1], &child)
            }
        };
        proof {
            if nc > 0 {
                assert(old_chains.last() == old_chains[nc - 1]);
                lemma_group_seq_models_index(chains@[nc - 1]@);
            }
        }
        if start_new {
            let mut c: Vec<AlertGroupRecord> = Vec::new();
            c.push(child);
            proof {
                lemma_group_seq_models_push(Seq::empty(), child);
                assert(Seq::<AlertGroupRecord>::empty().push(child) =~= c@);
                assert(group_seq_models(Seq::<AlertGroupRecord>::empty()) =~= Seq::<AlertGroupModel>::empty());
                assert(group_seq_models(c@) =~= seq![child@]);
            }
            chains.push(c);
            proof {
                assert(chain_models(chains@) =~= old_chains.push(seq![child@]));
            }
        } else {
            let mut last_chain = chains.pop().unwrap();
            let ghost lc0 = last_chain@;
            proof {
                assert(group_seq_models(lc0) == old_chains[nc - 1]);
            }
            last_chain.push(child);
            proof {
                lemma_group_seq_models_push(lc0, child);
            }
            chains.push(last_chain);
            proof {
                assert(chain_models(chains@) =~= old_chains.update(old_chains.len() - 1, old_chains.last().push(child@)));
            }
        }
        proof {
            let cmods = chain_models(chains@);
            assert forall|c: int| 0 <= c < chains.len() implies groups_ok(#[trigger] cmods[c]) by {
                if c < nc && !(c == nc - 1 && !start_new) {
                    assert(cmods[c] == old_chains[c]);
                } else {
                    let cc = cmods[c];
                    lemma_group_seq_models_index(chains@[c]@);
                    assert forall|j: int| 0 <= j < cc.len() implies (#[trigger] cc[j]).event_count >= 0 && minutes_ok(cc[j].semantic_window_minutes) by {
                        if j < cc.len() - 1 {
                            assert(cc[j] == old_chains[c][j]);
                        } else {
                            assert(cc[j] == am[i as int]);
                        }
                    }
                }
            }
        }
        i = i + 1;
    }
    proof {
        assert(am.take(n as int) =~= am);
    }
    let ghost chm = chain_models(chains@);
    proof {
        assert forall|c: int| 0 <= c < chm.len() implies sum_event_counts(#[trigger] chm[c]) >= 0 by {
            lemma_sum_nonneg(chm[c]);
        }
        assert forall|j: int| 0 <= j < chains.len() implies #[trigger] group_seq_models(chains@[j]@) == chm[j] by {}
    }
    let cn = chains.len();
    let mut out: Vec<AlertGroupRecord> = Vec::new();
    let mut remaining = chains;
    let mut index: usize = 0;
    while index < cn
        invariant
            cn == chm.len(),
            chm == chains_of(am),
            index <= cn,
            cn <= n,
            n <= i64::MAX,
            remaining.len() == cn - index,
            forall|j: int| 0 <= j < remaining.len() ==> #[trigger] group_seq_models(remaining@[j]@) == chm[index + j],
            forall|j: int| 0 <= j < remaining.len() ==> (#[trigger] remaining@[j]).len() > 0 && remaining@[j].len() <= n,
            forall|c: int| 0 <= c < cn ==> groups_ok(#[trigger] chm[c]),
            chains_total(chm) <= i64::MAX,
            forall|c: int| 0 <= c < cn ==> sum_event_counts(#[trigger] chm[c]) >= 0,
            group_seq_models(out@) == Seq::new(chm.len(), |k: int| mother_spec(chm[k], k)).take(index as int),
        decreases cn - index,
    {
        let ghost old_rem = remaining@;
        let chain = remaining.remove(0);
        proof {
            assert(group_seq_models(chain@) == chm[index as int]);
            assert forall|j: int| 0 <= j < remaining.len() implies #[trigger] group_seq_models(remaining@[j]@) == chm[index + 1 + j] by {
                assert(remaining@[j] == old_rem[j + 1]);
            }
            assert forall|j: int| 0 <= j < remaining.len() implies (#[trigger] remaining@[j]).len() > 0 && remaining@[j].len() <= n by {
                assert(remaining@[j] == old_rem[j + 1]);
            }
            lemma_chain_le_total(chm, index as int);
        }
        let ghost old_out = out@;
        let m = build_mother(chain, index);
        out.push(m);
        proof {
            lemma_group_seq_models_push(old_out, m);
            assert(group_seq_models(out@) =~= Seq::new(chm.len(), |k: int| mother_spec(chm[k], k)).take(index + 1));
        }
        index = index + 1;
    }
    proof {
        assert(Seq::new(chm.len(), |k: int| mother_spec(chm[k], k)).take(cn as int) =~= Seq::new(chm.len(), |k: int| mother_spec(chm[k], k)));
    }
    out
}


// ---------------------------------------------------------------------------
// Compatibility groups and the top level
// ---------------------------------------------------------------------------

/// The compatibility group of `events` (newest first): its id, subject and
/// request kind from the newest event, its range from the oldest to the newest.
pub open spec fn compat_group_spec(events: Seq<AlertEventModel>) -> AlertGroupModel {
    let latest = events[0];
    let earliest = events.last();
    AlertGroupModel {
        id: crate::alerts::subject::alert_group_id_spec(latest),
        alert_type: latest.alert_type,
        subject_kind: latest.subject_kind,
        subject_id: latest.subject_id,
        subject_label: latest.subject_label,
        user: latest.user,
        token: latest.token,
        key: latest.key,
        request_kind: latest.request_kind,
        count: events.len() as i64,
        first_seen: earliest.occurred_at,
        last_seen: latest.occurred_at,
        latest_event: latest,
        grouping_kind: "compat"@,
        semantic_window_kind: None,
        semantic_window_minutes: None,
        semantic_window_start: None,
        semantic_window_end: None,
        semantic_window_key: None,
        child_count: 0,
        event_count: events.len() as i64,
        children: Seq::empty(),
        child_events: Seq::empty(),
    }
}

/// The compatibility group record of `events` (newest first), `None` when empty.
pub fn build_compat_group_record(events: &Vec<AlertEventRecord>) -> (r: Option<AlertGroupRecord>)
    requires
        events.len() <= i64::MAX,
    ensures
        events.len() == 0 <==> r is None,
        r matches Some(g) ==> g@ == compat_group_spec(event_models(events@)),
{
    let n = events.len();
    if n == 0 {
        return None;
    }
    let latest = events[0].duplicate();
    let g = AlertGroupRecord {
        id: crate::alerts::subject::alert_group_id(&latest),
        alert_type: latest.alert_type.clone(),
        subject_kind: latest.subject_kind.clone(),
        subject_id: latest.subject_id.clone(),
        subject_label: latest.subject_label.clone(),
        user: clone_user(&latest.user),
        token: clone_entity(&latest.token),
        key: clone_entity(&latest.key),
        request_kind: clone_kind(&latest.request_kind),
        count: n as i64,
        first_seen: events[n - 1].occurred_at,
        last_seen: latest.occurred_at,
        grouping_kind: owned("compat"),
        semantic_window_kind: None,
        semantic_window_minutes: None,
        semantic_window_start: None,
        semantic_window_end: None,
        semantic_window_key: None,
        child_count: 0,
        event_count: n as i64,
        children: Vec::new(),
        child_events: Vec::new(),
        latest_event: latest,
    };
    proof {
        let em = event_models(events@);
        assert(em[0] == events@[0]@);
        assert(em.last() == events@[n - 1]@);
        assert(group_seq_models(g.children@) =~= Seq::<AlertGroupModel>::empty());
        assert(event_models(g.child_events@) =~= Seq::<AlertEventModel>::empty());
    }
    Some(g)
}

/// Groups keyed by a string, in order of first appearance.
pub type KeyedEvents = Seq<(Seq<char>, Seq<AlertEventModel>)>;

/// The position of `key` among the groups from `i` on.
pub open spec fn find_key(groups: KeyedEvents, key: Seq<char>, i: int) -> Option<int>
    decreases groups.len() - i,
{
    if i < 0 || i >= groups.len() {
        None
    } else if groups[i].0 == key {
        Some(i)
    } else {
        find_key(groups, key, i + 1)
    }
}

/// The groups once `e` joins the group of `key` (created at the end when new).
pub open spec fn assoc_add(groups: KeyedEvents, key: Seq<char>, e: AlertEventModel) -> KeyedEvents {
    match find_key(groups, key, 0) {
        Some(i) => groups.update(i, (key, groups[i].1.push(e))),
        None => groups.push((key, seq![e])),
    }
}

/// Whether an event is grouped by its limit window: a local limit alert
/// whose window could be recovered.
pub open spec fn is_semantic_event(e: AlertEventModel) -> bool {
    (e.alert_type == crate::alerts::semantic::ALERT_TYPE_USER_REQUEST_RATE_LIMITED@
        || e.alert_type == crate::alerts::semantic::ALERT_TYPE_USER_QUOTA_EXHAUSTED@)
        && e.semantic_window is Some
}

/// Events split into compatibility groups and semantic groups.
pub open spec fn partition_events(s: Seq<AlertEventModel>) -> (KeyedEvents, KeyedEvents)
    decreases s.len(),
{
    if s.len() == 0 {
        (Seq::empty(), Seq::empty())
    } else {
        let p = partition_events(s.drop_last());
        let e = s.last();
        if is_semantic_event(e) {
            (p.0, assoc_add(p.1, semantic_subject_key_spec(e), e))
        } else {
            (assoc_add(p.0, crate::alerts::subject::alert_group_id_spec(e), e), p.1)
        }
    }
}

/// The compatibility group records.
pub open spec fn compat_items(c: KeyedEvents) -> Seq<AlertGroupModel> {
    Seq::new(c.len(), |i: int| compat_group_spec(events_sorted(c[i].1, true)))
}

/// The mother group records of every semantic group, group by group.
pub open spec fn semantic_items(m: KeyedEvents) -> Seq<AlertGroupModel>
    decreases m.len(),
{
    if m.len() == 0 {
        Seq::empty()
    } else {
        semantic_items(m.drop_last()) + semantic_mothers_spec(semantic_children_spec(m.last().1))
    }
}

/// The top-level groups of a set of alert events: every compatibility group
/// and every mother group, newest first (by last seen, then count, type and id).
pub open spec fn group_records_spec(s: Seq<AlertEventModel>) -> Seq<AlertGroupModel> {
    let p = partition_events(s);
    groups_sorted(compat_items(p.0) + semantic_items(p.1), GroupOrder::TopLevelDesc)
}

/// The result of grouping alert events.
pub struct AlertGroupingEnvelope {
    pub top_level_items: Vec<AlertGroupRecord>,
}


/// The models of keyed event groups.
pub open spec fn keyed_models(v: Seq<(String, Vec<AlertEventRecord>)>) -> KeyedEvents {
    v.map_values(|p: (String, Vec<AlertEventRecord>)| (p.0@, event_models(p.1@)))
}

/// Every group holds between one and `bound` events, each with a window length that fits.
pub open spec fn keyed_ok(v: KeyedEvents, bound: int) -> bool {
    forall|i: int| 0 <= i < v.len() ==> 0 < (#[trigger] v[i]).1.len() <= bound && events_minutes_ok(v[i].1)
}

proof fn lemma_keyed_ok_add(v: KeyedEvents, key: Seq<char>, e: AlertEventModel, bound: int)
    requires
        keyed_ok(v, bound),
        bound >= 0,
        event_minutes_ok(e),
    ensures
        keyed_ok(assoc_add(v, key, e), bound + 1),
{
    lemma_find_key_range(v, key, 0);
    let r = assoc_add(v, key, e);
    assert forall|i: int| 0 <= i < r.len() implies 0 < (#[trigger] r[i]).1.len() <= bound + 1 && events_minutes_ok(r[i].1) by {
        match find_key(v, key, 0) {
            Some(j) => {
                assert(0 < v[j].1.len() <= bound && events_minutes_ok(v[j].1));
                if i == j {
                    let evs = r[i].1;
                    assert(evs == v[j].1.push(e));
                    assert forall|k: int| 0 <= k < evs.len() implies event_minutes_ok(#[trigger] evs[k]) by {
                        if k < evs.len() - 1 {
                            assert(evs[k] == v[j].1[k]);
                        } else {
                            assert(evs[k] == e);
                        }
                    }
                    assert(events_minutes_ok(evs));
                    assert(0 < evs.len() <= bound + 1);
                } else {
                    assert(r[i] == v[i]);
                    assert(0 < v[i].1.len() <= bound && events_minutes_ok(v[i].1));
                }
            },
            None => {
                if i < v.len() {
                    assert(r[i] == v[i]);
                    assert(0 < v[i].1.len() <= bound && events_minutes_ok(v[i].1));
                } else {
                    assert(r[i].1 =~= seq![e]);
                    assert(r[i].1[0] == e);
                    assert(events_minutes_ok(r[i].1));
                }
            },
        }
    }
}

proof fn lemma_find_key_range(v: KeyedEvents, key: Seq<char>, i: int)
    requires
        0 <= i,
    ensures
        find_key(v, key, i) matches Some(j) ==> i <= j < v.len() && v[j].0 == key,
    decreases v.len() - i,
{
    if i < v.len() && v[i].0 != key {
        lemma_find_key_range(v, key, i + 1);
    }
}

/// Adds `e` to the group of `key`, creating the group at the end when new.
fn assoc_add_exec(groups: &mut Vec<(String, Vec<AlertEventRecord>)>, key: String, e: AlertEventRecord)
    ensures
        keyed_models(final(groups)@) == assoc_add(keyed_models(old(groups)@), key@, e@),
{
    let ghost g0 = keyed_models(groups@);
    let n = groups.len();
    let mut i: usize = 0;
    let mut found = false;
    while i < n && !found
        invariant
            n == groups.len(),
            i <= n,
            g0 == keyed_models(groups@),
            found ==> i < n && g0[i as int].0 == key@,
            find_key(g0, key@, 0) == find_key(g0, key@, i as int),
        decreases n - i + (if found { 0int } else { 1int }),
    {
        if str_eq(groups[i].0.as_str(), key.as_str()) {
            found = true;
        } else {
            i = i + 1;
        }
    }
    if found {
        let (k, mut evs) = groups.remove(i);
        let ghost ev0 = evs@;
        evs.push(e);
        groups.insert(i, (k, evs));
        proof {
            assert(event_models(evs@) =~= event_models(ev0).push(e@));
            assert(keyed_models(groups@) =~= g0.update(i as int, (key@, g0[i as int].1.push(e@))));
        }
    } else {
        let mut evs: Vec<AlertEventRecord> = Vec::new();
        evs.push(e);
        groups.push((key, evs));
        proof {
            assert(event_models(evs@) =~= seq![e@]);
            assert(keyed_models(groups@) =~= g0.push((key@, seq![e@])));
        }
    }
}

proof fn lemma_group_seq_models_concat(a: Seq<AlertGroupRecord>, b: Seq<AlertGroupRecord>)
    ensures
        group_seq_models(a + b) == group_seq_models(a) + group_seq_models(b),
{
    lemma_group_seq_models_map(a);
    lemma_group_seq_models_map(b);
    lemma_group_seq_models_map(a + b);
    assert((a + b).map_values(|g: AlertGroupRecord| g@) =~= a.map_values(|g: AlertGroupRecord| g@) + b.map_values(|g: AlertGroupRecord| g@));
}

/// Groups alert events into compatibility groups (by type, subject and
/// request kind) and semantic mother groups (local limit alerts by type,
/// subject and window), newest first.
pub fn build_group_records_from_events(events: Vec<AlertEventRecord>) -> (r: AlertGroupingEnvelope)
    requires
        events.len() <= i64::MAX,
        events_minutes_ok(event_models(events@)),
    ensures
        group_seq_models(r.top_level_items@) == group_records_spec(event_models(events@)),
{
    let ghost input = event_models(events@);
    let n = events.len();
    let mut rest = events;
    let mut compat: Vec<(String, Vec<AlertEventRecord>)> = Vec::new();
    let mut semantic: Vec<(String, Vec<AlertEventRecord>)> = Vec::new();
    let mut i: usize = 0;
    while i < n
        invariant
            n == input.len(),
            n <= i64::MAX,
            i <= n,
            events_minutes_ok(input),
            rest.len() == n - i,
            forall|j: int| 0 <= j < rest.len() ==> #[trigger] rest@[j]@ == input[i + j],
            (keyed_models(compat@), keyed_models(semantic@)) == partition_events(input.take(i as int)),
            keyed_ok(keyed_models(compat@), i as int),
            keyed_ok(keyed_models(semantic@), i as int),
        decreases n - i,
    {
        let ghost old_rest = rest@;
        let e = rest.remove(0);
        proof {
            assert(e@ == input[i as int]);
            assert forall|j: int| 0 <= j < rest.len() implies #[trigger] rest@[j]@ == input[i + 1 + j] by {
                assert(rest@[j] == old_rest[j + 1]);
            }
            assert(input.take(i + 1).drop_last() =~= input.take(i as int));
            assert(input.take(i + 1).last() == input[i as int]);
            assert(event_minutes_ok(input[i as int]));

        }
        let semantic_type = str_eq(e.alert_type.as_str(), crate::alerts::semantic::ALERT_TYPE_USER_REQUEST_RATE_LIMITED)
            || str_eq(e.alert_type.as_str(), crate::alerts::semantic::ALERT_TYPE_USER_QUOTA_EXHAUSTED);
        if semantic_type && e.semantic_window.is_some() {
            let key = semantic_subject_key(&e);
            proof {
                lemma_keyed_ok_add(keyed_models(semantic@), key@, e@, i as int);
                assert(keyed_ok(keyed_models(compat@), i + 1));
            }
            assoc_add_exec(&mut semantic, key, e);
        } else {
            let key = compat_subject_key(&e);
            proof {
                lemma_keyed_ok_add(keyed_models(compat@), key@, e@, i as int);
                assert(keyed_ok(keyed_models(semantic@), i + 1));
            }
            assoc_add_exec(&mut compat, key, e);
        }
        i = i + 1;
    }
    proof {
        assert(input.take(n as int) =~= input);
    }
    let ghost cm = keyed_models(compat@);
    let ghost sm = keyed_models(semantic@);
    let mut items: Vec<AlertGroupRecord> = Vec::new();
    proof {
        assert(group_seq_models(items@) =~= compat_items(cm).take(0));
    }
    let cn = compat.len();
    let mut k: usize = 0;
    let mut crest = compat;
    while k < cn
        invariant
            cn == cm.len(),
            k <= cn,
            n <= i64::MAX,
            keyed_ok(cm, n as int),
            crest.len() == cn - k,
            forall|j: int| 0 <= j < crest.len() ==> #[trigger] keyed_models(crest@)[j] == cm[k + j],
            group_seq_models(items@) == compat_items(cm).take(k as int),
        decreases cn - k,
    {
        let ghost old_crest = keyed_models(crest@);
        let (_key, grouped) = crest.remove(0);
        proof {
            assert(old_crest[0] == cm[k as int]);
            assert forall|j: int| 0 <= j < crest.len() implies #[trigger] keyed_models(crest@)[j] == cm[k + 1 + j] by {
                assert(keyed_models(crest@)[j] == old_crest[j + 1]);
            }
            assert(event_models(grouped@) == cm[k as int].1);
        }
        let sorted = sort_events(grouped, true);
        proof {
            lemma_stable_sort_length(cm[k as int].1, event_keys(cm[k as int].1), true);
        }
        let ghost old_items = items@;
        match build_compat_group_record(&sorted) {
            Some(g) => {
                items.push(g);
                proof {
                    lemma_group_seq_models_push(old_items, g);
                    assert(group_seq_models(items@) =~= compat_items(cm).take(k + 1));
                }
            },
            None => {
                assert(false);
            },
        }
        k = k + 1;
    }
    proof {
        assert(compat_items(cm).take(cn as int) =~= compat_items(cm));
        assert(sm.take(0) =~= Seq::<(Seq<char>, Seq<AlertEventModel>)>::empty());
        assert(semantic_items(sm.take(0)) =~= Seq::<AlertGroupModel>::empty());
        assert(group_seq_models(items@) =~= compat_items(cm) + semantic_items(sm.take(0)));
    }
    let sn = semantic.len();
    let mut k: usize = 0;
    let mut srest = semantic;
    while k < sn
        invariant
            sn == sm.len(),
            k <= sn,
            n <= i64::MAX,
            keyed_ok(sm, n as int),
            srest.len() == sn - k,
            forall|j: int| 0 <= j < srest.len() ==> #[trigger] keyed_models(srest@)[j] == sm[k + j],
            group_seq_models(items@) == compat_items(cm) + semantic_items(sm.take(k as int)),
        decreases sn - k,
    {
        let ghost old_srest = keyed_models(srest@);
        let (_key, grouped) = srest.remove(0);
        proof {
            assert(old_srest[0] == sm[k as int]);
            assert forall|j: int| 0 <= j < srest.len() implies #[trigger] keyed_models(srest@)[j] == sm[k + 1 + j] by {
                assert(keyed_models(srest@)[j] == old_srest[j + 1]);
            }
            assert(event_models(grouped@) == sm[k as int].1);
            assert(sm.take(k + 1).drop_last() =~= sm.take(k as int));
            assert(sm.take(k + 1).last() == sm[k as int]);
        }
        let ghost gev = sm[k as int].1;
        let children = build_semantic_child_windows(grouped);
        if children.len() == 0 {
            proof {
                assert(groups_sorted(Seq::<AlertGroupModel>::empty(), GroupOrder::FirstSeenAsc).len() == 0) by {
                    lemma_stable_sort_length(Seq::<AlertGroupModel>::empty(), group_keys(Seq::<AlertGroupModel>::empty(), GroupOrder::FirstSeenAsc), false);
                }
                assert(group_seq_models(children@) =~= Seq::<AlertGroupModel>::empty());
                assert(chains_of(groups_sorted(Seq::<AlertGroupModel>::empty(), GroupOrder::FirstSeenAsc)) =~= Seq::<Seq<AlertGroupModel>>::empty());
                assert(semantic_mothers_spec(semantic_children_spec(gev)) =~= Seq::<AlertGroupModel>::empty());
                assert(group_seq_models(items@) =~= compat_items(cm) + semantic_items(sm.take(k + 1)));
            }
        } else {
            let mut mothers = build_semantic_mother_groups(children);
            let ghost old_items = items@;
            let ghost mm = mothers@;
            items.append(&mut mothers);
            proof {
                lemma_group_seq_models_concat(old_items, mm);
                assert(group_seq_models(items@) =~= compat_items(cm) + semantic_items(sm.take(k + 1)));
            }
        }
        k = k + 1;
    }
    proof {
        assert(sm.take(sn as int) =~= sm);
    }
    let sorted = sort_groups(items, GroupOrder::TopLevelDesc);
    AlertGroupingEnvelope { top_level_items: sorted }
}

} // verus!
