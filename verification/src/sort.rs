//! Stable insertion sort keyed by a lexicographic sort key, with an exact
//! specification: the result is the stable sort of the input by the key.

use vstd::prelude::*;
use crate::text::{lex_lt, lex_lt_from, str_eq, str_lt};

verus! {

/// A sort key compared lexicographically: two integers, then two strings.
pub struct OrdKey {
    pub n1: i64,
    pub n2: i64,
    pub s1: String,
    pub s2: String,
}

/// The mathematical value of an [`OrdKey`].
pub struct OrdKeyModel {
    pub n1: int,
    pub n2: int,
    pub s1: Seq<char>,
    pub s2: Seq<char>,
}

impl View for OrdKey {
    type V = OrdKeyModel;

    open spec fn view(&self) -> OrdKeyModel {
        OrdKeyModel { n1: self.n1 as int, n2: self.n2 as int, s1: self.s1@, s2: self.s2@ }
    }
}

/// Strict lexicographic order on sort keys.
pub open spec fn key_lt(a: OrdKeyModel, b: OrdKeyModel) -> bool {
    if a.n1 != b.n1 {
        a.n1 < b.n1
    } else if a.n2 != b.n2 {
        a.n2 < b.n2
    } else if a.s1 != b.s1 {
        lex_lt(a.s1, b.s1)
    } else {
        lex_lt(a.s2, b.s2)
    }
}

/// Whether an element with key `x` goes strictly before one with key `y`
/// in ascending (`desc == false`) or descending order.
pub open spec fn key_before(x: OrdKeyModel, y: OrdKeyModel, desc: bool) -> bool {
    if desc { key_lt(y, x) } else { key_lt(x, y) }
}

/// First position `>= j` in `keys` before which `k` goes.
pub open spec fn insert_pos_from(keys: Seq<OrdKeyModel>, k: OrdKeyModel, desc: bool, j: int) -> int
    decreases keys.len() - j,
{
    if j < 0 || j >= keys.len() {
        keys.len() as int
    } else if key_before(k, keys[j], desc) {
        j
    } else {
        insert_pos_from(keys, k, desc, j + 1)
    }
}

/// The stable sort of `items` (paired with `keys`): items are inserted one by
/// one, each after every earlier item it does not strictly precede.
pub open spec fn stable_sort<T>(items: Seq<T>, keys: Seq<OrdKeyModel>, desc: bool) -> (Seq<T>, Seq<OrdKeyModel>)
    decreases items.len(),
{
    if items.len() == 0 || keys.len() == 0 {
        (Seq::empty(), Seq::empty())
    } else {
        let rest = stable_sort(items.drop_last(), keys.drop_last(), desc);
        let p = insert_pos_from(rest.1, keys.last(), desc, 0);
        (rest.0.insert(p, items.last()), rest.1.insert(p, keys.last()))
    }
}

/// The key models of a vector of keys.
pub open spec fn key_models(keys: Seq<OrdKey>) -> Seq<OrdKeyModel> {
    keys.map_values(|k: OrdKey| k@)
}

proof fn lemma_insert_pos_bounds(keys: Seq<OrdKeyModel>, k: OrdKeyModel, desc: bool, j: int)
    requires
        0 <= j <= keys.len(),
    ensures
        j <= insert_pos_from(keys, k, desc, j) <= keys.len(),
    decreases keys.len() - j,
{
    if j < keys.len() && !key_before(k, keys[j], desc) {
        lemma_insert_pos_bounds(keys, k, desc, j + 1);
    }
}

proof fn lemma_stable_sort_len<T>(items: Seq<T>, keys: Seq<OrdKeyModel>, desc: bool)
    requires
        items.len() == keys.len(),
    ensures
        stable_sort(items, keys, desc).0.len() == items.len(),
        stable_sort(items, keys, desc).1.len() == items.len(),
    decreases items.len(),
{
    if items.len() > 0 {
        lemma_stable_sort_len(items.drop_last(), keys.drop_last(), desc);
        let rest = stable_sort(items.drop_last(), keys.drop_last(), desc);
        lemma_insert_pos_bounds(rest.1, keys.last(), desc, 0);
    }
}

/// `key_lt` on two keys.
pub fn ord_key_lt(a: &OrdKey, b: &OrdKey) -> (r: bool)
    ensures
        r == key_lt(a@, b@),
{
    if a.n1 != b.n1 {
        a.n1 < b.n1
    } else if a.n2 != b.n2 {
        a.n2 < b.n2
    } else if !str_eq(a.s1.as_str(), b.s1.as_str()) {
        str_lt(a.s1.as_str(), b.s1.as_str())
    } else {
        str_lt(a.s2.as_str(), b.s2.as_str())
    }
}

/// Sorts `items` stably by `keys` (`keys[i]` is the key of `items[i]`),
/// ascending or descending.
pub fn sort_by_keys<T>(items: Vec<T>, keys: Vec<OrdKey>, desc: bool) -> (r: Vec<T>)
    requires
        items.len() == keys.len(),
    ensures
        r@ == stable_sort(items@, key_models(keys@), desc).0,
        r.len() == items.len(),
{
    let ghost orig_items = items@;
    let ghost orig_keys = key_models(keys@);
    let n = items.len();
    let mut rest_items = items;
    let mut rest_keys = keys;
    let mut out: Vec<T> = Vec::new();
    let mut out_keys: Vec<OrdKey> = Vec::new();
    let mut i: usize = 0;
    while i < n
        invariant
            n == orig_items.len(),
            orig_keys.len() == n,
            i <= n,
            rest_items@ == orig_items.skip(i as int),
            key_models(rest_keys@) == orig_keys.skip(i as int),
            rest_items.len() == n - i,
            rest_keys.len() == n - i,
            out@ == stable_sort(orig_items.take(i as int), orig_keys.take(i as int), desc).0,
            key_models(out_keys@) == stable_sort(orig_items.take(i as int), orig_keys.take(i as int), desc).1,
            out.len() == i,
            out_keys.len() == i,
        decreases n - i,
    {
        let ghost old_rk = rest_keys@;
        let x = rest_items.remove(0);
        let k = rest_keys.remove(0);
        proof {
            assert(orig_items.take(i + 1).drop_last() =~= orig_items.take(i as int));
            assert(orig_keys.take(i + 1).drop_last() =~= orig_keys.take(i as int));
            assert(orig_items.take(i + 1).last() == orig_items[i as int]);
            assert(orig_keys.take(i + 1).last() == orig_keys[i as int]);
            assert(orig_items.skip(i as int)[0] == orig_items[i as int]);
            assert(orig_keys.skip(i as int)[0] == orig_keys[i as int]);
            assert forall|t: int| 0 <= t < rest_keys@.len() implies #[trigger] key_models(rest_keys@)[t] == orig_keys.skip(i + 1)[t] by {
                assert(rest_keys@[t] == old_rk[t + 1]);
                assert(key_models(old_rk)[t + 1] == old_rk[t + 1]@);
            }
            assert(key_models(rest_keys@) =~= orig_keys.skip(i + 1));
            assert(key_models(old_rk)[0] == old_rk[0]@);
            assert(rest_items@ =~= orig_items.skip(i + 1));
            assert(k@ == orig_keys[i as int]);
        }
        let ghost prior = stable_sort(orig_items.take(i as int), orig_keys.take(i as int), desc);
        let mut j: usize = 0;
        let mut found = false;
        while j < out_keys.len() && !found
            invariant
                j <= out_keys.len(),
                key_models(out_keys@) == prior.1,
                found ==> j < out_keys.len() && key_before(k@, prior.1[j as int], desc),
                insert_pos_from(prior.1, k@, desc, 0) == insert_pos_from(prior.1, k@, desc, j as int),
            decreases out_keys.len() - j + (if found { 0int } else { 1int }),
        {
            proof {
                assert(key_models(out_keys@)[j as int] == out_keys@[j as int]@);
            }
            let before = if desc {
                ord_key_lt(&out_keys[j], &k)
            } else {
                ord_key_lt(&k, &out_keys[j])
            };
            if before {
                found = true;
            } else {
                j = j + 1;
            }
        }
        proof {
            if j < out_keys.len() {
                assert(key_models(out_keys@)[j as int] == out_keys@[j as int]@);
            }
        }
        proof {
            lemma_stable_sort_len(orig_items.take(i as int), orig_keys.take(i as int), desc);
            assert(insert_pos_from(prior.1, k@, desc, 0) == j);
        }
        let ghost old_ok = out_keys@;
        out.insert(j, x);
        out_keys.insert(j, k);
        proof {
            assert forall|t: int| 0 <= t < out_keys@.len() implies #[trigger] key_models(out_keys@)[t] == prior.1.insert(j as int, orig_keys[i as int])[t] by {
                if t < j {
                    assert(out_keys@[t] == old_ok[t]);
                    assert(key_models(old_ok)[t] == old_ok[t]@);
                } else if t > j {
                    assert(out_keys@[t] == old_ok[t - 1]);
                    assert(key_models(old_ok)[t - 1] == old_ok[t - 1]@);
                }
            }
            assert(key_models(out_keys@) =~= prior.1.insert(j as int, orig_keys[i as int]));
            assert(out@ =~= prior.0.insert(j as int, orig_items[i as int]));
        }
        i = i + 1;
    }
    proof {
        assert(orig_items.take(n as int) =~= orig_items);
        assert(orig_keys.take(n as int) =~= orig_keys);
    }
    out
}


/// Sorting commutes with mapping the items: the keys decide the order alone.
pub proof fn lemma_stable_sort_map<A, B>(items: Seq<A>, keys: Seq<OrdKeyModel>, desc: bool, f: spec_fn(A) -> B)
    requires
        items.len() == keys.len(),
    ensures
        stable_sort(items.map_values(f), keys, desc).0 == stable_sort(items, keys, desc).0.map_values(f),
        stable_sort(items.map_values(f), keys, desc).1 == stable_sort(items, keys, desc).1,
    decreases items.len(),
{
    if items.len() > 0 {
        assert(items.map_values(f).drop_last() =~= items.drop_last().map_values(f));
        lemma_stable_sort_map(items.drop_last(), keys.drop_last(), desc, f);
        lemma_stable_sort_len(items.drop_last(), keys.drop_last(), desc);
        let rest = stable_sort(items.drop_last(), keys.drop_last(), desc);
        let p = insert_pos_from(rest.1, keys.last(), desc, 0);
        lemma_insert_pos_bounds(rest.1, keys.last(), desc, 0);
        assert(rest.0.insert(p, items.last()).map_values(f) =~= rest.0.map_values(f).insert(p, f(items.last())));
    }
}

/// Sorting keeps the length.
pub proof fn lemma_stable_sort_length<T>(items: Seq<T>, keys: Seq<OrdKeyModel>, desc: bool)
    requires
        items.len() == keys.len(),
    ensures
        stable_sort(items, keys, desc).0.len() == items.len(),
        stable_sort(items, keys, desc).1.len() == items.len(),
{
    lemma_stable_sort_len(items, keys, desc);
}

/// Sorting keeps every item: the result is a permutation of the input.
pub proof fn lemma_stable_sort_permutation<T>(items: Seq<T>, keys: Seq<OrdKeyModel>, desc: bool)
    requires
        items.len() == keys.len(),
    ensures
        stable_sort(items, keys, desc).0.to_multiset() == items.to_multiset(),
    decreases items.len(),
{
    broadcast use vstd::seq_lib::group_to_multiset_ensures;
    if items.len() > 0 {
        lemma_stable_sort_permutation(items.drop_last(), keys.drop_last(), desc);
        lemma_stable_sort_len(items.drop_last(), keys.drop_last(), desc);
        let rest = stable_sort(items.drop_last(), keys.drop_last(), desc);
        let p = insert_pos_from(rest.1, keys.last(), desc, 0);
        lemma_insert_pos_bounds(rest.1, keys.last(), desc, 0);
        vstd::seq_lib::to_multiset_insert(rest.0, p, items.last());
        assert(items =~= items.drop_last().push(items.last()));
        vstd::seq_lib::to_multiset_build(items.drop_last(), items.last());
    }
}


/// Sorting keeps a property that every item has.
pub proof fn lemma_stable_sort_all<T>(items: Seq<T>, keys: Seq<OrdKeyModel>, desc: bool, p: spec_fn(T) -> bool)
    requires
        items.len() == keys.len(),
        forall|i: int| 0 <= i < items.len() ==> p(#[trigger] items[i]),
    ensures
        forall|i: int| 0 <= i < stable_sort(items, keys, desc).0.len() ==> p(#[trigger] stable_sort(items, keys, desc).0[i]),
    decreases items.len(),
{
    if items.len() > 0 {
        lemma_stable_sort_all(items.drop_last(), keys.drop_last(), desc, p);
        lemma_stable_sort_len(items.drop_last(), keys.drop_last(), desc);
        let rest = stable_sort(items.drop_last(), keys.drop_last(), desc);
        let pos = insert_pos_from(rest.1, keys.last(), desc, 0);
        lemma_insert_pos_bounds(rest.1, keys.last(), desc, 0);
        let r = rest.0.insert(pos, items.last());
        assert forall|i: int| 0 <= i < r.len() implies p(#[trigger] r[i]) by {
            if i < pos {
                assert(r[i] == rest.0[i]);
            } else if i > pos {
                assert(r[i] == rest.0[i - 1]);
            } else {
                assert(r[i] == items[items.len() - 1]);
            }
        }
    }
}


/// The insertion position lies within the sequence.
pub proof fn lemma_insert_pos_in_range(keys: Seq<OrdKeyModel>, k: OrdKeyModel, desc: bool)
    ensures
        0 <= insert_pos_from(keys, k, desc, 0) <= keys.len(),
{
    lemma_insert_pos_bounds(keys, k, desc, 0);
}


proof fn lemma_lex_asym(a: Seq<char>, b: Seq<char>, i: int)
    requires
        0 <= i,
        lex_lt_from(a, b, i),
    ensures
        !lex_lt_from(b, a, i),
    decreases a.len() - i,
{
    if i < a.len() && i < b.len() && a[i] == b[i] {
        lemma_lex_asym(a, b, i + 1);
    }
}

proof fn lemma_lex_trans(a: Seq<char>, b: Seq<char>, c: Seq<char>, i: int)
    requires
        0 <= i,
        lex_lt_from(a, b, i),
        lex_lt_from(b, c, i),
    ensures
        lex_lt_from(a, c, i),
    decreases a.len() - i,
{
    if i < a.len() && i < b.len() && i < c.len() && a[i] == b[i] && b[i] == c[i] {
        lemma_lex_trans(a, b, c, i + 1);
    }
}

/// Strict order on keys is asymmetric.
proof fn lemma_key_lt_asym(a: OrdKeyModel, b: OrdKeyModel)
    requires
        key_lt(a, b),
    ensures
        !key_lt(b, a),
{
    if a.n1 == b.n1 && a.n2 == b.n2 {
        if a.s1 != b.s1 {
            lemma_lex_asym(a.s1, b.s1, 0);
        } else {
            lemma_lex_asym(a.s2, b.s2, 0);
        }
    }
}

/// Strict order on keys is transitive.
proof fn lemma_key_lt_trans(a: OrdKeyModel, b: OrdKeyModel, c: OrdKeyModel)
    requires
        key_lt(a, b),
        key_lt(b, c),
    ensures
        key_lt(a, c),
{
    if a.n1 == b.n1 && b.n1 == c.n1 && a.n2 == b.n2 && b.n2 == c.n2 {
        if a.s1 != b.s1 {
            if b.s1 != c.s1 {
                lemma_lex_trans(a.s1, b.s1, c.s1, 0);
                if a.s1 == c.s1 {
                    lemma_lex_asym(a.s1, b.s1, 0);
                }
            }
        } else if b.s1 == c.s1 {
            lemma_lex_trans(a.s2, b.s2, c.s2, 0);
        }
    }
}

/// Keys in order: no key goes strictly before one that comes earlier.
pub open spec fn keys_sorted(ks: Seq<OrdKeyModel>, desc: bool) -> bool {
    forall|i: int, j: int| 0 <= i < j < ks.len() ==> !key_before(#[trigger] ks[j], #[trigger] ks[i], desc)
}

proof fn lemma_insert_pos_facts(keys: Seq<OrdKeyModel>, k: OrdKeyModel, desc: bool, j: int)
    requires
        0 <= j <= keys.len(),
    ensures
        forall|m: int| j <= m < insert_pos_from(keys, k, desc, j) ==> !key_before(k, #[trigger] keys[m], desc),
        insert_pos_from(keys, k, desc, j) < keys.len() ==> key_before(k, keys[insert_pos_from(keys, k, desc, j)], desc),
    decreases keys.len() - j,
{
    if j < keys.len() && !key_before(k, keys[j], desc) {
        lemma_insert_pos_facts(keys, k, desc, j + 1);
    }
}

/// The keys come out sorted: ascending, or descending when `desc`, with no
/// key placed after one it strictly precedes.
pub proof fn lemma_stable_sort_sorted<T>(items: Seq<T>, keys: Seq<OrdKeyModel>, desc: bool)
    requires
        items.len() == keys.len(),
    ensures
        keys_sorted(stable_sort(items, keys, desc).1, desc),
    decreases items.len(),
{
    if items.len() > 0 {
        lemma_stable_sort_sorted(items.drop_last(), keys.drop_last(), desc);
        lemma_stable_sort_len(items.drop_last(), keys.drop_last(), desc);
        let rest = stable_sort(items.drop_last(), keys.drop_last(), desc);
        let r = rest.1;
        let k = keys.last();
        let p = insert_pos_from(r, k, desc, 0);
        lemma_insert_pos_bounds(r, k, desc, 0);
        lemma_insert_pos_facts(r, k, desc, 0);
        let out = r.insert(p, k);
        assert forall|i: int, j: int| 0 <= i < j < out.len() implies !key_before(#[trigger] out[j], #[trigger] out[i], desc) by {
            if j < p {
                assert(out[i] == r[i] && out[j] == r[j]);
            } else if j == p {
                assert(out[i] == r[i] && out[j] == k);
            } else if i > p {
                assert(out[i] == r[i - 1] && out[j] == r[j - 1]);
            } else if i == p {
                assert(out[i] == k && out[j] == r[j - 1]);
                assert(key_before(k, r[p], desc));
                if key_before(r[j - 1], k, desc) {
                    if j - 1 == p {
                        if desc {
                            lemma_key_lt_asym(r[p], k);
                        } else {
                            lemma_key_lt_asym(k, r[p]);
                        }
                    } else if desc {
                        lemma_key_lt_trans(r[p], k, r[j - 1]);
                    } else {
                        lemma_key_lt_trans(r[j - 1], k, r[p]);
                    }
                    assert(j - 1 > p ==> !key_before(r[j - 1], r[p], desc));
                }
            } else {
                assert(out[i] == r[i] && out[j] == r[j - 1]);
            }
        }
    }
}


/// When each key is computed from its item, the sorted keys are those of
/// the sorted items.
pub proof fn lemma_stable_sort_keys_of_items<T>(items: Seq<T>, desc: bool, g: spec_fn(T) -> OrdKeyModel)
    ensures
        stable_sort(items, items.map_values(g), desc).1 == stable_sort(items, items.map_values(g), desc).0.map_values(g),
    decreases items.len(),
{
    if items.len() > 0 {
        assert(items.map_values(g).drop_last() =~= items.drop_last().map_values(g));
        lemma_stable_sort_keys_of_items(items.drop_last(), desc, g);
        lemma_stable_sort_len(items.drop_last(), items.drop_last().map_values(g), desc);
        let rest = stable_sort(items.drop_last(), items.drop_last().map_values(g), desc);
        let k = items.map_values(g).last();
        let p = insert_pos_from(rest.1, k, desc, 0);
        lemma_insert_pos_bounds(rest.1, k, desc, 0);
        assert(rest.0.insert(p, items.last()).map_values(g) =~= rest.0.map_values(g).insert(p, g(items.last())));
    }
}

} // verus!
