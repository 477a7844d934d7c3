//! Filling in the mother groups of a page: the events of the page's mother
//! groups are read again and regrouped, and each mother group of the page
//! takes the regrouped mother with the same type, subject and time range.

use vstd::prelude::*;
use crate::alerts::model::{
    AlertGroupModel, AlertGroupRecord, group_seq_models, lemma_group_seq_models_index,
    lemma_group_seq_models_push,
};
use crate::alerts::queries::{
    AlertEventFilters, AlertSqlFragments, alert_events_cte_piece, request_kind_filter_piece,
    subject_id_sql_spec, subject_kind_sql_spec,
};
use crate::sql::{
    SqlArg, SqlPiece, SqlQuery, bind_int, bind_text, concat_pieces, empty_piece, extends,
    lemma_extends_empty, lemma_extends_step, lemma_extends_then, lit, then,
};
use crate::store::KeyStore;
use crate::text::{str_eq, string_views};

verus! {

/// What identifies a mother group across regroupings: its alert type,
/// subject kind and id, and the times of its first and last event.
pub open spec fn mother_key(g: AlertGroupModel) -> (Seq<char>, Seq<char>, Seq<char>, i64, i64) {
    (g.alert_type, g.subject_kind, g.subject_id, g.first_seen, g.last_seen)
}

/// Whether a group is a mother group.
pub open spec fn is_mother(g: AlertGroupModel) -> bool {
    g.grouping_kind == "mother"@
}

/// The last mother group of `pool` with key `k`, if any.
pub open spec fn last_mother_with_key(pool: Seq<AlertGroupModel>, k: (Seq<char>, Seq<char>, Seq<char>, i64, i64)) -> Option<int>
    decreases pool.len(),
{
    if pool.len() == 0 {
        None
    } else if is_mother(pool.last()) && mother_key(pool.last()) == k {
        Some(pool.len() - 1)
    } else {
        last_mother_with_key(pool.drop_last(), k)
    }
}

/// The page's groups with each mother group replaced by the last regrouped
/// mother with its key, each regrouped mother used at most once (a second
/// page group with the same key keeps its own record); and the keys used.
pub open spec fn populate_spec(groups: Seq<AlertGroupModel>, pool: Seq<AlertGroupModel>)
    -> (Seq<AlertGroupModel>, Set<(Seq<char>, Seq<char>, Seq<char>, i64, i64)>)
    decreases groups.len(),
{
    if groups.len() == 0 {
        (Seq::empty(), Set::empty())
    } else {
        let (prev, used) = populate_spec(groups.drop_last(), pool);
        let g = groups.last();
        if is_mother(g) {
            let k = mother_key(g);
            match last_mother_with_key(pool, k) {
                Some(j) => if !used.contains(k) { (prev.push(pool[j]), used.insert(k)) } else { (prev.push(g), used) },
                None => (prev.push(g), used),
            }
        } else {
            (prev.push(g), used)
        }
    }
}

proof fn lemma_last_mother(pool: Seq<AlertGroupModel>, k: (Seq<char>, Seq<char>, Seq<char>, i64, i64))
    ensures
        last_mother_with_key(pool, k) matches Some(j) ==> 0 <= j < pool.len() && is_mother(pool[j]) && mother_key(pool[j]) == k
            && forall|i: int| j < i < pool.len() ==> !(is_mother(#[trigger] pool[i]) && mother_key(pool[i]) == k),
        last_mother_with_key(pool, k) is None ==> forall|i: int| 0 <= i < pool.len() ==> !(is_mother(#[trigger] pool[i]) && mother_key(pool[i]) == k),
    decreases pool.len(),
{
    if pool.len() > 0 {
        lemma_last_mother(pool.drop_last(), k);
        assert forall|i: int| 0 <= i < pool.len() - 1 implies #[trigger] pool[i] == pool.drop_last()[i] by {}
    }
}

fn is_mother_record(g: &AlertGroupRecord) -> (r: bool)
    ensures
        r == is_mother(g@),
{
    str_eq(g.grouping_kind.as_str(), "mother")
}

/// The identity of a regrouped group: whether it is a mother, and its key.
pub open spec fn key_row_model(r: (bool, String, String, String, i64, i64)) -> (bool, (Seq<char>, Seq<char>, Seq<char>, i64, i64)) {
    (r.0, (r.1@, r.2@, r.3@, r.4, r.5))
}

/// The key table matches the regrouped list; the slots still holding their
/// regrouped mother match it too; an emptied slot is the last mother of a
/// used key; and the last mother of every used key has been taken.
pub open spec fn slots_ok(
    slots: Seq<Option<AlertGroupRecord>>,
    keys: Seq<(bool, String, String, String, i64, i64)>,
    pool: Seq<AlertGroupModel>,
    used: Set<(Seq<char>, Seq<char>, Seq<char>, i64, i64)>,
) -> bool {
    &&& slots.len() == pool.len()
    &&& keys.len() == pool.len()
    &&& forall|j: int| 0 <= j < keys.len() ==> #[trigger] key_row_model(keys[j]) == (is_mother(pool[j]), mother_key(pool[j]))
    &&& forall|j: int| 0 <= j < slots.len() ==> (#[trigger] slots[j] matches Some(x) ==> x@ == pool[j])
    &&& forall|j: int| 0 <= j < slots.len() ==> (#[trigger] slots[j] is None ==> {
        &&& is_mother(pool[j])
        &&& used.contains(mother_key(pool[j]))
        &&& last_mother_with_key(pool, mother_key(pool[j])) == Some(j)
    })
    &&& forall|k: (Seq<char>, Seq<char>, Seq<char>, i64, i64)| #[trigger] used.contains(k) ==>
        (last_mother_with_key(pool, k) matches Some(j) && slots[j] is None)
}

proof fn lemma_last_mother_is(pool: Seq<AlertGroupModel>, k: (Seq<char>, Seq<char>, Seq<char>, i64, i64), j: int)
    requires
        0 <= j < pool.len(),
        is_mother(pool[j]),
        mother_key(pool[j]) == k,
        forall|i: int| j < i < pool.len() ==> !(is_mother(#[trigger] pool[i]) && mother_key(pool[i]) == k),
    ensures
        last_mother_with_key(pool, k) == Some(j),
    decreases pool.len(),
{
    if j < pool.len() - 1 {
        assert(!(is_mother(pool[pool.len() - 1]) && mother_key(pool[pool.len() - 1]) == k));
        assert forall|i: int| j < i < pool.drop_last().len() implies !(is_mother(#[trigger] pool.drop_last()[i]) && mother_key(pool.drop_last()[i]) == k) by {
            assert(pool.drop_last()[i] == pool[i]);
        }
        assert(pool.drop_last()[j] == pool[j]);
        lemma_last_mother_is(pool.drop_last(), k, j);
    }
}

/// The position of the last regrouped mother with the key of `g`.
fn find_last_mother(keys: &Vec<(bool, String, String, String, i64, i64)>, g: &AlertGroupRecord, Ghost(pool): Ghost<Seq<AlertGroupModel>>) -> (r: Option<usize>)
    requires
        keys@.len() == pool.len(),
        forall|j: int| 0 <= j < keys@.len() ==> #[trigger] key_row_model(keys@[j]) == (is_mother(pool[j]), mother_key(pool[j])),
    ensures
        match r {
            Some(j) => last_mother_with_key(pool, mother_key(g@)) == Some(j as int),
            None => last_mother_with_key(pool, mother_key(g@)) is None,
        },
{
    let ghost k = mother_key(g@);
    proof { lemma_last_mother(pool, k); }
    let mut i: usize = keys.len();
    while i > 0
        invariant
            i <= keys.len(),
            keys@.len() == pool.len(),
            forall|j: int| 0 <= j < keys@.len() ==> #[trigger] key_row_model(keys@[j]) == (is_mother(pool[j]), mother_key(pool[j])),
            k == mother_key(g@),
            forall|j: int| i <= j < pool.len() ==> !(is_mother(#[trigger] pool[j]) && mother_key(pool[j]) == k),
        decreases i,
    {
        let j = i - 1;
        let row = &keys[j];
        proof { assert(key_row_model(keys@[j as int]) == (is_mother(pool[j as int]), mother_key(pool[j as int]))); }
        let hit = row.0 && row.4 == g.first_seen && row.5 == g.last_seen && str_eq(row.1.as_str(), g.alert_type.as_str())
            && str_eq(row.2.as_str(), g.subject_kind.as_str()) && str_eq(row.3.as_str(), g.subject_id.as_str());
        if hit {
            proof { lemma_last_mother_is(pool, k, j as int); }
            return Some(j);
        }
        i = j;
    }
    None
}

/// Fills in the mother groups of a page from the regrouped events of its
/// mother groups (the top-level groups of `regrouped`).
pub fn populate_selected_mother_groups(groups: Vec<AlertGroupRecord>, regrouped: Vec<AlertGroupRecord>) -> (r: Vec<AlertGroupRecord>)
    ensures
        group_seq_models(r@) == populate_spec(group_seq_models(groups@), group_seq_models(regrouped@)).0,
{
    let ghost gs = group_seq_models(groups@);
    let ghost pool = group_seq_models(regrouped@);
    proof {
        lemma_group_seq_models_index(groups@);
        lemma_group_seq_models_index(regrouped@);
    }
    let ghost given = regrouped@;
    let mut rest = regrouped;
    let mut taken: Vec<AlertGroupRecord> = Vec::new();
    while rest.len() > 0
        invariant
            taken@.len() + rest@.len() == given.len(),
            forall|j: int| 0 <= j < rest@.len() ==> #[trigger] rest@[j] == given[j],
            forall|j: int| 0 <= j < taken@.len() ==> #[trigger] taken@[j] == given[given.len() - 1 - j],
        decreases rest.len(),
    {
        let x = rest.pop().unwrap();
        taken.push(x);
    }
    let mut slots: Vec<Option<AlertGroupRecord>> = Vec::new();
    let mut keys: Vec<(bool, String, String, String, i64, i64)> = Vec::new();
    while taken.len() > 0
        invariant
            slots@.len() + taken@.len() == given.len(),
            keys@.len() == slots@.len(),
            forall|j: int| 0 <= j < taken@.len() ==> #[trigger] taken@[j] == given[given.len() - 1 - j],
            forall|j: int| 0 <= j < slots@.len() ==> #[trigger] slots@[j] == Some(given[j]),
            forall|j: int| 0 <= j < keys@.len() ==> #[trigger] key_row_model(keys@[j]) == (is_mother(given[j]@), mother_key(given[j]@)),
        decreases taken.len(),
    {
        let x = taken.pop().unwrap();
        let row = (is_mother_record(&x), x.alert_type.clone(), x.subject_kind.clone(), x.subject_id.clone(), x.first_seen, x.last_seen);
        keys.push(row);
        slots.push(Some(x));
    }
    let ghost mut used: Set<(Seq<char>, Seq<char>, Seq<char>, i64, i64)> = Set::empty();
    proof {
        assert forall|j: int| 0 <= j < keys@.len() implies #[trigger] key_row_model(keys@[j]) == (is_mother(pool[j]), mother_key(pool[j])) by {
            assert(pool[j] == given[j]@);
        }
        assert forall|j: int| 0 <= j < slots@.len() implies (#[trigger] slots@[j] matches Some(x) ==> x@ == pool[j]) by {
            assert(pool[j] == given[j]@);
        }
    }
    let ghost page0 = groups@;
    let mut page = groups;
    let mut reversed: Vec<AlertGroupRecord> = Vec::new();
    while page.len() > 0
        invariant
            reversed@.len() + page@.len() == page0.len(),
            forall|j: int| 0 <= j < page@.len() ==> #[trigger] page@[j] == page0[j],
            forall|j: int| 0 <= j < reversed@.len() ==> #[trigger] reversed@[j] == page0[page0.len() - 1 - j],
        decreases page.len(),
    {
        let x = page.pop().unwrap();
        reversed.push(x);
    }
    let total = reversed.len();
    proof { assert(page0.len() == total); }
    let mut out: Vec<AlertGroupRecord> = Vec::new();
    let mut i: usize = 0;
    while reversed.len() > 0
        invariant
            i + reversed@.len() == page0.len(),
            page0.len() <= usize::MAX,
            gs == group_seq_models(page0),
            gs.len() == page0.len(),
            forall|j: int| 0 <= j < page0.len() ==> #[trigger] gs[j] == page0[j]@,
            forall|j: int| 0 <= j < reversed@.len() ==> #[trigger] reversed@[j] == page0[page0.len() - 1 - j],
            slots_ok(slots@, keys@, pool, used),
            (group_seq_models(out@), used) == populate_spec(gs.take(i as int), pool),
        decreases reversed.len(),
    {
        let g = reversed.pop().unwrap();
        let ghost gm = g@;
        proof {
            assert(gm == gs[i as int]);
            assert(gs.take(i + 1).drop_last() =~= gs.take(i as int));
            assert(gs.take(i + 1).last() == gs[i as int]);
        }
        let mut chosen = g;
        if is_mother_record(&chosen) {
            let ghost k = mother_key(gm);
            match find_last_mother(&keys, &chosen, Ghost(pool)) {
                Some(j) => {
                    proof { lemma_last_mother(pool, k); }
                    if slots[j].is_some() {
                        proof {
                            if used.contains(k) {
                                assert(slots@[j as int] is None);
                            }
                        }
                        let ghost old_slots = slots@;
                        let replacement = slots[j].take();
                        proof { assert(slots@ == old_slots.update(j as int, None)); }
                        match replacement {
                            Some(x) => {
                                proof {
                                    let used2 = used.insert(k);
                                    assert forall|m: int| 0 <= m < slots@.len() && #[trigger] slots@[m] is None implies {
                                        &&& is_mother(pool[m])
                                        &&& used2.contains(mother_key(pool[m]))
                                        &&& last_mother_with_key(pool, mother_key(pool[m])) == Some(m)
                                    } by {
                                        if m != j {
                                            assert(old_slots[m] is None);
                                        }
                                    }
                                    assert forall|kk: (Seq<char>, Seq<char>, Seq<char>, i64, i64)| #[trigger] used2.contains(kk) implies
                                        (last_mother_with_key(pool, kk) matches Some(jj) && slots@[jj] is None) by {
                                        if kk != k {
                                            assert(used.contains(kk));
                                            assert(slots_ok(old_slots, keys@, pool, used));
                                            let jj = last_mother_with_key(pool, kk)->0;
                                            lemma_last_mother(pool, kk);
                                            assert(0 <= jj < old_slots.len());
                                            assert(old_slots[jj] is None);
                                            assert(jj != j);
                                            assert(slots@[jj] is None);
                                        } else {
                                            assert(last_mother_with_key(pool, k) == Some(j as int));
                                            assert(slots@[j as int] is None);
                                        }
                                    }
                                    used = used2;
                                }
                                chosen = x;
                            }
                            None => {}
                        }
                    } else {
                        proof {
                            assert(used.contains(mother_key(pool[j as int])));
                        }
                    }
                }
                None => {}
            }
        }
        proof {
            lemma_group_seq_models_push(out@, chosen);
        }
        out.push(chosen);
        i = i + 1;
    }
    proof {
        assert(gs.take(page0.len() as int) =~= gs);
    }
    out
}

/// The mother groups of `s`, in order.
pub open spec fn mothers_of(s: Seq<AlertGroupModel>) -> Seq<AlertGroupModel>
    decreases s.len(),
{
    if s.len() == 0 {
        Seq::empty()
    } else if is_mother(s.last()) {
        mothers_of(s.drop_last()).push(s.last())
    } else {
        mothers_of(s.drop_last())
    }
}

/// The SQL expression for the request kind of a row of the alerts CTE.
pub open spec fn alerts_kind_expr() -> Seq<char> {
    "COALESCE(NULLIF(TRIM(request_kind_key), ''), 'unknown')"@
}

/// `(alerts.alert_type = ? AND <kind> = ? AND <id> = ? AND alerts.occurred_at >= ?
/// AND alerts.occurred_at <= ?)` for one mother group.
pub open spec fn subject_clause_piece(g: AlertGroupModel) -> SqlPiece {
    concat_pieces(seq![
        lit("("@),
        lit("alerts.alert_type = "@),
        bind_text(g.alert_type),
        lit(" AND "@),
        lit(subject_kind_sql_spec("alerts"@)),
        lit(" = "@),
        bind_text(g.subject_kind),
        lit(" AND "@),
        lit(subject_id_sql_spec("alerts"@)),
        lit(" = "@),
        bind_text(g.subject_id),
        lit(" AND alerts.occurred_at >= "@),
        bind_int(g.first_seen as int),
        lit(" AND alerts.occurred_at <= "@),
        bind_int(g.last_seen as int),
        lit(")"@),
    ])
}

/// The clauses of the mother groups, joined by ` OR `.
pub open spec fn subject_clauses_piece(ms: Seq<AlertGroupModel>) -> SqlPiece
    decreases ms.len(),
{
    if ms.len() == 0 {
        empty_piece()
    } else if ms.len() == 1 {
        subject_clause_piece(ms[0])
    } else {
        then(then(subject_clauses_piece(ms.drop_last()), lit(" OR "@)), subject_clause_piece(ms.last()))
    }
}

/// The query that reads again every event of the page's mother groups:
/// the alerts CTE, the request-kind filter, one clause per mother group,
/// newest first.
pub open spec fn selected_mother_events_piece(f: AlertEventFilters, x: AlertSqlFragments, groups: Seq<AlertGroupModel>) -> SqlPiece {
    concat_pieces(seq![
        alert_events_cte_piece(f, x),
        lit(" SELECT * FROM alerts WHERE 1 = 1"@),
        request_kind_filter_piece(alerts_kind_expr(), string_views(f.request_kinds@)),
        lit(" AND ("@),
        subject_clauses_piece(mothers_of(groups)),
        lit(")"@),
        lit(" ORDER BY occurred_at DESC, row_sort_id DESC"@),
    ])
}

fn push_subject_clause(query: &mut SqlQuery, kind_sql: &str, id_sql: &str, g: &AlertGroupRecord)
    requires
        kind_sql@ == subject_kind_sql_spec("alerts"@),
        id_sql@ == subject_id_sql_spec("alerts"@),
    ensures
        extends(*old(query), *final(query), subject_clause_piece(g@)),
{
    let ghost q0 = *query;
    let ghost gm = g@;
    proof { lemma_extends_empty(q0); }
    let ghost mut done: Seq<SqlPiece> = Seq::empty();
    let ghost qa = *query;
    query.push("(");
    proof { lemma_extends_step(q0, qa, *query, done, lit("("@)); done = done.push(lit("("@)); }
    let ghost qa = *query;
    query.push("alerts.alert_type = ");
    proof { lemma_extends_step(q0, qa, *query, done, lit("alerts.alert_type = "@)); done = done.push(lit("alerts.alert_type = "@)); }
    let ghost qa = *query;
    query.push_bind_text(g.alert_type.clone());
    proof { lemma_extends_step(q0, qa, *query, done, bind_text(gm.alert_type)); done = done.push(bind_text(gm.alert_type)); }
    let ghost qa = *query;
    query.push(" AND ");
    proof { lemma_extends_step(q0, qa, *query, done, lit(" AND "@)); done = done.push(lit(" AND "@)); }
    let ghost qa = *query;
    query.push(kind_sql);
    proof { lemma_extends_step(q0, qa, *query, done, lit(kind_sql@)); done = done.push(lit(kind_sql@)); }
    let ghost qa = *query;
    query.push(" = ");
    proof { lemma_extends_step(q0, qa, *query, done, lit(" = "@)); done = done.push(lit(" = "@)); }
    let ghost qa = *query;
    query.push_bind_text(g.subject_kind.clone());
    proof { lemma_extends_step(q0, qa, *query, done, bind_text(gm.subject_kind)); done = done.push(bind_text(gm.subject_kind)); }
    let ghost qa = *query;
    query.push(" AND ");
    proof { lemma_extends_step(q0, qa, *query, done, lit(" AND "@)); done = done.push(lit(" AND "@)); }
    let ghost qa = *query;
    query.push(id_sql);
    proof { lemma_extends_step(q0, qa, *query, done, lit(id_sql@)); done = done.push(lit(id_sql@)); }
    let ghost qa = *query;
    query.push(" = ");
    proof { lemma_extends_step(q0, qa, *query, done, lit(" = "@)); done = done.push(lit(" = "@)); }
    let ghost qa = *query;
    query.push_bind_text(g.subject_id.clone());
    proof { lemma_extends_step(q0, qa, *query, done, bind_text(gm.subject_id)); done = done.push(bind_text(gm.subject_id)); }
    let ghost qa = *query;
    query.push(" AND alerts.occurred_at >= ");
    proof { lemma_extends_step(q0, qa, *query, done, lit(" AND alerts.occurred_at >= "@)); done = done.push(lit(" AND alerts.occurred_at >= "@)); }
    let ghost qa = *query;
    query.push_bind_int(g.first_seen);
    proof { lemma_extends_step(q0, qa, *query, done, bind_int(gm.first_seen as int)); done = done.push(bind_int(gm.first_seen as int)); }
    let ghost qa = *query;
    query.push(" AND alerts.occurred_at <= ");
    proof { lemma_extends_step(q0, qa, *query, done, lit(" AND alerts.occurred_at <= "@)); done = done.push(lit(" AND alerts.occurred_at <= "@)); }
    let ghost qa = *query;
    query.push_bind_int(g.last_seen);
    proof { lemma_extends_step(q0, qa, *query, done, bind_int(gm.last_seen as int)); done = done.push(bind_int(gm.last_seen as int)); }
    let ghost qa = *query;
    query.push(")");
    proof {
        lemma_extends_step(q0, qa, *query, done, lit(")"@));
        done = done.push(lit(")"@));
        assert(done =~= seq![
            lit("("@),
            lit("alerts.alert_type = "@),
            bind_text(gm.alert_type),
            lit(" AND "@),
            lit(subject_kind_sql_spec("alerts"@)),
            lit(" = "@),
            bind_text(gm.subject_kind),
            lit(" AND "@),
            lit(subject_id_sql_spec("alerts"@)),
            lit(" = "@),
            bind_text(gm.subject_id),
            lit(" AND alerts.occurred_at >= "@),
            bind_int(gm.first_seen as int),
            lit(" AND alerts.occurred_at <= "@),
            bind_int(gm.last_seen as int),
            lit(")"@),
        ]);
    }
}

impl KeyStore {
    /// The query that reads again the events of the page's mother groups, or
    /// `None` when the page holds no mother group (nothing is to be read).
    pub fn selected_mother_events_query(filters: &AlertEventFilters, fragments: &AlertSqlFragments, groups: &Vec<AlertGroupRecord>) -> (r: Option<SqlQuery>)
        ensures
            mothers_of(group_seq_models(groups@)).len() == 0 <==> r is None,
            r matches Some(q) ==> {
                let p = selected_mother_events_piece(*filters, *fragments, group_seq_models(groups@));
                q.sql@ == p.text && q.args() == p.args
            },
    {
        let ghost gs = group_seq_models(groups@);
        proof { lemma_group_seq_models_index(groups@); }
        let mut query = SqlQuery::new("");
        let ghost q0 = query;
        proof { lemma_extends_empty(q0); }
        let ghost mut done: Seq<SqlPiece> = Seq::empty();
        let ghost qa = query;
        Self::push_alert_events_cte(&mut query, filters, fragments);
        proof { lemma_extends_step(q0, qa, query, done, alert_events_cte_piece(*filters, *fragments)); done = done.push(alert_events_cte_piece(*filters, *fragments)); }
        let ghost qa = query;
        query.push(" SELECT * FROM alerts WHERE 1 = 1");
        proof { lemma_extends_step(q0, qa, query, done, lit(" SELECT * FROM alerts WHERE 1 = 1"@)); done = done.push(lit(" SELECT * FROM alerts WHERE 1 = 1"@)); }
        let ghost qa = query;
        Self::push_alert_request_kind_filter(&mut query, "COALESCE(NULLIF(TRIM(request_kind_key), ''), 'unknown')", &filters.request_kinds);
        proof {
            let p = request_kind_filter_piece(alerts_kind_expr(), string_views(filters.request_kinds@));
            lemma_extends_step(q0, qa, query, done, p);
            done = done.push(p);
        }
        let ghost qa = query;
        query.push(" AND (");
        proof { lemma_extends_step(q0, qa, query, done, lit(" AND ("@)); done = done.push(lit(" AND ("@)); }
        let kind_sql = Self::alert_subject_kind_sql("alerts");
        let id_sql = Self::alert_subject_id_sql("alerts");
        let ghost qc = query;
        proof { lemma_extends_empty(qc); }
        let mut count: usize = 0;
        let mut i: usize = 0;
        while i < groups.len()
            invariant
                i <= groups.len(),
                gs == group_seq_models(groups@),
                gs.len() == groups@.len(),
                forall|j: int| 0 <= j < groups@.len() ==> #[trigger] gs[j] == groups@[j]@,
                kind_sql@ == subject_kind_sql_spec("alerts"@),
                id_sql@ == subject_id_sql_spec("alerts"@),
                count as int == mothers_of(gs.take(i as int)).len(),
                count <= i,
                extends(qc, query, subject_clauses_piece(mothers_of(gs.take(i as int)))),
            decreases groups.len() - i,
        {
            let g = &groups[i];
            proof {
                assert(gs.take(i + 1).drop_last() =~= gs.take(i as int));
                assert(gs.take(i + 1).last() == gs[i as int]);
            }
            if is_mother_record(g) {
                let ghost ms = mothers_of(gs.take(i as int));
                let ghost qb = query;
                if count > 0 {
                    query.push(" OR ");
                    proof { lemma_extends_then(qc, qb, query, subject_clauses_piece(ms), lit(" OR "@)); }
                }
                let ghost qd = query;
                push_subject_clause(&mut query, kind_sql.as_str(), id_sql.as_str(), g);
                proof {
                    let ms2 = ms.push(g@);
                    assert(ms2.drop_last() =~= ms);
                    if count > 0 {
                        lemma_extends_then(qc, qd, query, then(subject_clauses_piece(ms), lit(" OR "@)), subject_clause_piece(g@));
                    } else {
                        let c = subject_clause_piece(g@);
                        assert(subject_clauses_piece(ms) == empty_piece());
                        lemma_extends_then(qc, qd, query, empty_piece(), c);
                        assert(Seq::<char>::empty() + c.text =~= c.text);
                        assert(Seq::<SqlArg>::empty() + c.args =~= c.args);
                    }
                }
                count = count + 1;
            }
            i = i + 1;
        }
        proof { assert(gs.take(groups.len() as int) =~= gs); }
        if count == 0 {
            return None;
        }
        proof {
            lemma_extends_step(q0, qc, query, done, subject_clauses_piece(mothers_of(gs)));
            done = done.push(subject_clauses_piece(mothers_of(gs)));
        }
        let ghost qa = query;
        query.push(")");
        proof { lemma_extends_step(q0, qa, query, done, lit(")"@)); done = done.push(lit(")"@)); }
        let ghost qa = query;
        query.push(" ORDER BY occurred_at DESC, row_sort_id DESC");
        proof {
            lemma_extends_step(q0, qa, query, done, lit(" ORDER BY occurred_at DESC, row_sort_id DESC"@));
            done = done.push(lit(" ORDER BY occurred_at DESC, row_sort_id DESC"@));
            reveal_strlit("");
            assert(q0.sql@ =~= Seq::<char>::empty());
            assert(q0.sql@ + selected_mother_events_piece(*filters, *fragments, gs).text =~= selected_mother_events_piece(*filters, *fragments, gs).text);
            assert(q0.args() + selected_mother_events_piece(*filters, *fragments, gs).args =~= selected_mother_events_piece(*filters, *fragments, gs).args);
            assert(done =~= seq![
                alert_events_cte_piece(*filters, *fragments),
                lit(" SELECT * FROM alerts WHERE 1 = 1"@),
                request_kind_filter_piece(alerts_kind_expr(), string_views(filters.request_kinds@)),
                lit(" AND ("@),
                subject_clauses_piece(mothers_of(gs)),
                lit(")"@),
                lit(" ORDER BY occurred_at DESC, row_sort_id DESC"@),
            ]);
        }
        Some(query)
    }
}

} // verus!
