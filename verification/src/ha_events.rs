//! The HA control-plane events shown for a node: the events recorded on the
//! node and those of the same operations, merged without repeats, newest
//! first.

use vstd::prelude::*;
use crate::error::ProxyError;
use crate::ha::{channel_str, HaSyncChannel};
use crate::num::{sat_sub, saturating_sub_i64};
use crate::sort::{key_models, sort_by_keys, stable_sort, OrdKey, OrdKeyModel};
use crate::text::{cat, concat_all, str_eq, string_views, trim, trim_string};

verus! {

/// How many events a page may hold: one to two hundred.
pub open spec fn clamp_event_limit(limit: i64) -> int {
    if limit < 1 { 1 } else if limit > 200 { 200 } else { limit as int }
}

/// The limits of a node's event page: each of the two reads takes up to
/// three times the page's size, and the merged page keeps one more event
/// than its size (to tell whether there is a next page).
pub fn ha_node_interaction_limits(limit: i64) -> (r: (i64, usize))
    ensures
        r.0 == clamp_event_limit(limit) * 3,
        r.1 == clamp_event_limit(limit) + 1,
{
    let clamped: i64 = if limit < 1 { 1 } else if limit > 200 { 200 } else { limit };
    (clamped * 3, (clamped + 1) as usize)
}

/// The distinct operation ids of a node's events that are not blank, in
/// first-seen order.
pub open spec fn operation_ids_spec(ops: Seq<Option<Seq<char>>>) -> Seq<Seq<char>>
    decreases ops.len(),
{
    if ops.len() == 0 {
        Seq::empty()
    } else {
        let d = operation_ids_spec(ops.drop_last());
        match ops.last() {
            Some(o) => if trim(o).len() > 0 && !d.contains(o) { d.push(o) } else { d },
            None => d,
        }
    }
}

/// The views of optional strings.
pub open spec fn opt_string_views(s: Seq<Option<String>>) -> Seq<Option<Seq<char>>> {
    s.map_values(|o: Option<String>| match o {
        Some(v) => Some(v@),
        None => None,
    })
}

fn contains_string(v: &Vec<String>, s: &str) -> (r: bool)
    ensures
        r == string_views(v@).contains(s@),
{
    let mut i: usize = 0;
    while i < v.len()
        invariant
            i <= v.len(),
            forall|j: int| 0 <= j < i ==> string_views(v@)[j] != s@,
        decreases v.len() - i,
    {
        if str_eq(v[i].as_str(), s) {
            assert(string_views(v@)[i as int] == s@);
            return true;
        }
        i = i + 1;
    }
    false
}

/// The operations whose events are read besides the node's own.
pub fn ha_node_interaction_operation_ids(ops: &Vec<Option<String>>) -> (r: Vec<String>)
    ensures
        string_views(r@) == operation_ids_spec(opt_string_views(ops@)),
{
    let ghost m = opt_string_views(ops@);
    let mut ids: Vec<String> = Vec::new();
    let mut i: usize = 0;
    while i < ops.len()
        invariant
            i <= ops.len(),
            m == opt_string_views(ops@),
            string_views(ids@) == operation_ids_spec(m.take(i as int)),
        decreases ops.len() - i,
    {
        proof {
            assert(m.take(i + 1).drop_last() =~= m.take(i as int));
            assert(m.take(i + 1).last() == m[i as int]);
        }
        match &ops[i] {
            Some(o) => {
                let blank = trim_string(o.as_str()).as_str().unicode_len() == 0;
                if !blank && !contains_string(&ids, o.as_str()) {
                    let ghost before = ids@;
                    ids.push(o.clone());
                    assert(string_views(ids@) =~= string_views(before).push(o@));
                }
            },
            None => {},
        }
        i = i + 1;
    }
    proof { assert(m.take(ops.len() as int) =~= m); }
    ids
}

/// Whether an event before position `n` has id `id`.
pub open spec fn id_seen(keys: Seq<(i64, i64)>, n: int, id: i64) -> bool {
    exists|j: int| 0 <= j < n && #[trigger] keys[j].0 == id
}

/// The positions of the first event of each id, in order.
pub open spec fn first_of_each_id(keys: Seq<(i64, i64)>) -> Seq<usize>
    decreases keys.len(),
{
    if keys.len() == 0 {
        Seq::empty()
    } else {
        let p = first_of_each_id(keys.drop_last());
        if id_seen(keys, keys.len() - 1, keys.last().0) { p } else { p.push((keys.len() - 1) as usize) }
    }
}

/// The sort key of the event at a position: its id, then its time.
pub open spec fn event_key(keys: Seq<(i64, i64)>, i: usize) -> OrdKeyModel {
    OrdKeyModel { n1: keys[i as int].0 as int, n2: keys[i as int].1 as int, s1: Seq::empty(), s2: Seq::empty() }
}

/// The merged page, as positions among the events read (given by id and
/// time): the first event of each id, newest first (by id, then time), at
/// most `clamp_event_limit(limit) + 1` of them.
pub open spec fn merged_events_spec(keys: Seq<(i64, i64)>, limit: i64) -> Seq<usize> {
    let firsts = first_of_each_id(keys);
    let sorted = stable_sort(firsts, firsts.map_values(|i: usize| event_key(keys, i)), true).0;
    let n = clamp_event_limit(limit) + 1;
    if sorted.len() <= n { sorted } else { sorted.take(n) }
}

proof fn lemma_id_seen_extend(keys: Seq<(i64, i64)>, n: int, id: i64)
    requires
        0 <= n < keys.len(),
    ensures
        id_seen(keys, n + 1, id) == (id_seen(keys, n, id) || keys[n].0 == id),
{
    if keys[n].0 == id {
        assert(id_seen(keys, n + 1, id));
    }
    if id_seen(keys, n + 1, id) && keys[n].0 != id {
        let j = choose|j: int| 0 <= j < n + 1 && #[trigger] keys[j].0 == id;
        assert(j < n);
    }
}

proof fn lemma_id_seen_take(keys: Seq<(i64, i64)>, i: int, id: i64)
    requires
        0 <= i < keys.len(),
    ensures
        id_seen(keys.take(i + 1), i, id) == id_seen(keys, i, id),
{
    if id_seen(keys, i, id) {
        let j = choose|j: int| 0 <= j < i && #[trigger] keys[j].0 == id;
        assert(keys.take(i + 1)[j].0 == id);
    }
    if id_seen(keys.take(i + 1), i, id) {
        let j = choose|j: int| 0 <= j < i && #[trigger] keys.take(i + 1)[j].0 == id;
        assert(keys[j].0 == id);
    }
}

/// Whether position `x` holds the first event of its id among `keys`.
pub open spec fn is_first_of_id(keys: Seq<(i64, i64)>, x: usize) -> bool {
    x < keys.len() && !id_seen(keys, x as int, keys[x as int].0)
}

proof fn lemma_id_seen_prefix(keys: Seq<(i64, i64)>, n: int, id: i64)
    requires
        0 <= n < keys.len(),
    ensures
        id_seen(keys.drop_last(), n, id) == id_seen(keys, n, id),
{
    if id_seen(keys, n, id) {
        let j = choose|j: int| 0 <= j < n && #[trigger] keys[j].0 == id;
        assert(keys.drop_last()[j].0 == id);
    }
    if id_seen(keys.drop_last(), n, id) {
        let j = choose|j: int| 0 <= j < n && #[trigger] keys.drop_last()[j].0 == id;
        assert(keys[j].0 == id);
    }
}

/// The positions kept per id are first events of their ids, in increasing order.
proof fn lemma_first_of_each_id_facts(keys: Seq<(i64, i64)>)
    requires
        keys.len() <= usize::MAX,
    ensures
        forall|t: int| 0 <= t < first_of_each_id(keys).len() ==> is_first_of_id(keys, #[trigger] first_of_each_id(keys)[t]),
        forall|a: int, b: int| 0 <= a < b < first_of_each_id(keys).len()
            ==> #[trigger] first_of_each_id(keys)[a] < #[trigger] first_of_each_id(keys)[b],
    decreases keys.len(),
{
    if keys.len() > 0 {
        let d = keys.drop_last();
        lemma_first_of_each_id_facts(d);
        let p = first_of_each_id(d);
        assert forall|t: int| 0 <= t < p.len() implies is_first_of_id(keys, #[trigger] p[t]) by {
            assert(is_first_of_id(d, p[t]));
            lemma_id_seen_prefix(keys, p[t] as int, d[p[t] as int].0);
        }
        let last = (keys.len() - 1) as usize;
        if !id_seen(keys, keys.len() - 1, keys.last().0) {
            let q = p.push(last);
            assert(first_of_each_id(keys) == q);
            assert(is_first_of_id(keys, last));
            assert forall|t: int| 0 <= t < q.len() implies is_first_of_id(keys, #[trigger] q[t]) by {
                if t < p.len() {
                    assert(q[t] == p[t]);
                }
            }
            assert forall|a: int, b: int| 0 <= a < b < q.len() implies #[trigger] q[a] < #[trigger] q[b] by {
                assert(q[a] == p[a]);
                assert(is_first_of_id(d, p[a]));
                if b < p.len() {
                    assert(q[b] == p[b]);
                }
            }
        } else {
            assert(first_of_each_id(keys) == p);
        }
    }
}

/// Two different first events have different ids.
proof fn lemma_firsts_differ_in_id(keys: Seq<(i64, i64)>, x: usize, y: usize)
    requires
        is_first_of_id(keys, x),
        is_first_of_id(keys, y),
        x < y,
    ensures
        keys[x as int].0 != keys[y as int].0,
{
    if keys[x as int].0 == keys[y as int].0 {
        assert(id_seen(keys, y as int, keys[y as int].0));
    }
}

/// The merged page of a node's events holds each id at most once, through
/// the first event read for it, with ids strictly decreasing (newest first),
/// and never more than one event beyond the page's size (for any list of
/// events whose positions fit `usize`, as those of a vector do).
pub proof fn lemma_merged_events_newest_first_without_repeats(keys: Seq<(i64, i64)>, limit: i64)
    requires
        keys.len() <= usize::MAX,
    ensures
        merged_events_spec(keys, limit).len() <= clamp_event_limit(limit) + 1,
        forall|t: int| 0 <= t < merged_events_spec(keys, limit).len()
            ==> is_first_of_id(keys, #[trigger] merged_events_spec(keys, limit)[t]),
        forall|a: int, b: int| 0 <= a < b < merged_events_spec(keys, limit).len()
            ==> keys[#[trigger] merged_events_spec(keys, limit)[a] as int].0 > keys[#[trigger] merged_events_spec(keys, limit)[b] as int].0,
{
    let firsts = first_of_each_id(keys);
    let g = |i: usize| event_key(keys, i);
    let fk = firsts.map_values(g);
    let sorted = stable_sort(firsts, fk, true).0;
    let n = clamp_event_limit(limit) + 1;
    lemma_first_of_each_id_facts(keys);
    crate::sort::lemma_stable_sort_length(firsts, fk, true);
    crate::sort::lemma_stable_sort_keys_of_items(firsts, true, g);
    crate::sort::lemma_stable_sort_sorted(firsts, fk, true);
    let pf = |x: usize| is_first_of_id(keys, x);
    crate::sort::lemma_stable_sort_all(firsts, fk, true, pf);
    crate::sort::lemma_stable_sort_permutation(firsts, fk, true);
    assert(firsts.no_duplicates()) by {
        assert forall|a: int, b: int| 0 <= a < firsts.len() && 0 <= b < firsts.len() && a != b implies firsts[a] != firsts[b] by {
            if a < b {
                assert(firsts[a] < firsts[b]);
            } else {
                assert(firsts[b] < firsts[a]);
            }
        }
    }
    firsts.lemma_multiset_has_no_duplicates();
    sorted.lemma_multiset_has_no_duplicates_conv();
    assert(stable_sort(firsts, fk, true).1 == sorted.map_values(g));
    assert forall|a: int, b: int| 0 <= a < b < sorted.len() implies keys[#[trigger] sorted[a] as int].0 > keys[#[trigger] sorted[b] as int].0 by {
        let ks = stable_sort(firsts, fk, true).1;
        assert(!crate::sort::key_before(ks[b], ks[a], true));
        assert(ks[a] == event_key(keys, sorted[a]));
        assert(ks[b] == event_key(keys, sorted[b]));
        assert(pf(sorted[a]) && pf(sorted[b]));
        assert(sorted[a] != sorted[b]);
        if sorted[a] < sorted[b] {
            lemma_firsts_differ_in_id(keys, sorted[a], sorted[b]);
        } else {
            lemma_firsts_differ_in_id(keys, sorted[b], sorted[a]);
        }
    }
    assert forall|t: int| 0 <= t < sorted.len() implies is_first_of_id(keys, #[trigger] sorted[t]) by {
        assert(pf(sorted[t]));
    }
    if sorted.len() > n {
        let page = sorted.take(n);
        assert(merged_events_spec(keys, limit) == page);
        assert forall|a: int, b: int| 0 <= a < b < page.len() implies keys[#[trigger] page[a] as int].0 > keys[#[trigger] page[b] as int].0 by {
            assert(page[a] == sorted[a] && page[b] == sorted[b]);
        }
        assert forall|t: int| 0 <= t < page.len() implies is_first_of_id(keys, #[trigger] page[t]) by {
            assert(page[t] == sorted[t]);
        }
    } else {
        assert(merged_events_spec(keys, limit) == sorted);
    }
}

/// Merges the events read for a node's page (given by id and time) into the
/// page: their positions, first event of each id only, newest first, at
/// most one more than the page's size.
pub fn ha_node_interaction_event_order(keys: &Vec<(i64, i64)>, limit: i64) -> (r: Vec<usize>)
    ensures
        r@ == merged_events_spec(keys@, limit),
{
    let ghost k = keys@;
    let mut firsts: Vec<usize> = Vec::new();
    let mut sort_keys: Vec<OrdKey> = Vec::new();
    let mut i: usize = 0;
    while i < keys.len()
        invariant
            i <= keys.len(),
            k == keys@,
            firsts@ == first_of_each_id(k.take(i as int)),
            key_models(sort_keys@) == firsts@.map_values(|x: usize| event_key(k, x)),
            forall|t: int| 0 <= t < firsts@.len() ==> (#[trigger] firsts@[t]) < i,
        decreases keys.len() - i,
    {
        let id = keys[i].0;
        let mut seen = false;
        let mut j: usize = 0;
        while j < i
            invariant
                j <= i,
                i < keys.len(),
                k == keys@,
                id == k[i as int].0,
                seen == id_seen(k, j as int, id),
            decreases i - j,
        {
            proof { lemma_id_seen_extend(k, j as int, id); }
            if keys[j].0 == id {
                seen = true;
            }
            j = j + 1;
        }
        proof {
            assert(k.take(i + 1).drop_last() =~= k.take(i as int));
            assert(k.take(i + 1).last() == k[i as int]);
            lemma_id_seen_take(k, i as int, id);
        }
        if !seen {
            let ghost old_keys = sort_keys@;
            let ghost old_firsts = firsts@;
            firsts.push(i);
            let key = OrdKey { n1: keys[i].0, n2: keys[i].1, s1: String::new(), s2: String::new() };
            sort_keys.push(key);
            proof {
                assert(key@ == event_key(k, i));
                assert(key_models(sort_keys@) =~= key_models(old_keys).push(key@));
                assert(firsts@.map_values(|x: usize| event_key(k, x)) =~= old_firsts.map_values(|x: usize| event_key(k, x)).push(event_key(k, i)));
            }
        }
        i = i + 1;
    }
    proof { assert(k.take(keys.len() as int) =~= k); }
    let sorted = sort_by_keys(firsts, sort_keys, true);
    let (_, keep) = ha_node_interaction_limits(limit);
    if sorted.len() <= keep {
        return sorted;
    }
    let mut page: Vec<usize> = Vec::new();
    let mut t: usize = 0;
    while t < keep
        invariant
            t <= keep,
            keep < sorted@.len(),
            page@ == sorted@.take(t as int),
        decreases keep - t,
    {
        page.push(sorted[t]);
        t = t + 1;
        assert(page@ =~= sorted@.take(t as int));
    }
    page
}

/// Whether a reader whose cursor is `after_seq` has missed events that
/// retention removed: with no event left in the retention window, when the
/// channel's sequence has gone past the cursor; else when the cursor lies
/// more than one before the oldest event kept. A cursor at zero has missed
/// nothing.
pub open spec fn cursor_too_old(after_seq: i64, min_seq: Option<i64>, last_seq: Option<i64>) -> bool {
    match min_seq {
        None => after_seq > 0 && (match last_seq { Some(v) => v as int, None => 0 }) > after_seq,
        Some(m) => after_seq > 0 && after_seq < sat_sub(m as int, 1),
    }
}

/// Checks that a reader of a channel's events has missed none to
/// retention (`validate_ha_events_cursor_on_conn`), given the oldest event
/// sequence in the retention window and the channel's last sequence.
pub fn ha_events_cursor_check(channel: HaSyncChannel, after_seq: i64, min_seq: Option<i64>, last_seq: Option<i64>) -> (r: Result<(), ProxyError>)
    ensures
        r is Ok <==> !cursor_too_old(after_seq, min_seq, last_seq),
        r matches Err(e) ==> (e matches ProxyError::Other(m) && m@ == "HA "@ + channel_str(channel) + " cursor is older than retention window"@),
{
    let too_old = match min_seq {
        None => {
            let last = match last_seq {
                Some(v) => v,
                None => 0,
            };
            after_seq > 0 && last > after_seq
        },
        Some(m) => after_seq > 0 && after_seq < crate::num::saturating_sub_i64(m, 1),
    };
    if too_old {
        let msg = cat(&vec!["HA ", channel.as_str(), " cursor is older than retention window"]);
        proof { reveal_with_fuel(concat_all, 4); }
        Err(ProxyError::Other(msg))
    } else {
        Ok(())
    }
}


/// How far a channel's outbox is behind: its rows, the age of its oldest
/// event, and how many events a peer has not acknowledged.
pub struct HaOutboxStats {
    pub row_count: i64,
    pub oldest_age_secs: i64,
    pub ack_lag: i64,
}

/// `v`, or 0 when it is negative.
pub open spec fn nonneg(v: int) -> int {
    if v < 0 { 0 } else { v }
}

/// The outbox figures from what was read: the row count (0 if negative),
/// the seconds since the oldest event was created (0 without events or for
/// an event from the future, saturating), and the highest sequence number
/// minus the peer's acknowledged one (0 if the peer is ahead, saturating).
pub fn ha_outbox_stats(row_count: i64, oldest_created_at: Option<i64>, acked_seq: i64, high_watermark: i64, now: i64) -> (r: HaOutboxStats)
    ensures
        r.row_count == nonneg(row_count as int),
        r.oldest_age_secs == match oldest_created_at {
            Some(c) => nonneg(sat_sub(now as int, c as int)),
            None => 0,
        },
        r.ack_lag == nonneg(sat_sub(high_watermark as int, acked_seq as int)),
{
    let oldest_age_secs: i64 = match oldest_created_at {
        Some(c) => {
            let age = saturating_sub_i64(now, c);
            if age < 0 { 0 } else { age }
        }
        None => 0,
    };
    let lag = saturating_sub_i64(high_watermark, acked_seq);
    HaOutboxStats {
        row_count: if row_count < 0 { 0 } else { row_count },
        oldest_age_secs,
        ack_lag: if lag < 0 { 0 } else { lag },
    }
}

} // verus!
