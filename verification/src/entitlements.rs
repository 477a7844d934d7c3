//! Account entitlement totals per user: the sums read for each user and
//! scope, gathered into one entry per user.

use vstd::prelude::*;
use crate::text::str_eq;

verus! {

/// The scope an entitlement applies in: one calendar month, or for good.
#[derive(Clone, Copy, Debug, PartialEq, Eq, Structural)]
pub enum AccountEntitlementScope {
    Month,
    Permanent,
    Other,
}

/// What entitlements add to a user's hourly calls, daily credits and monthly
/// credits.
#[derive(Clone, Copy, Debug, PartialEq, Eq, Structural)]
pub struct EntitlementQuotaDelta {
    pub hourly_delta: i64,
    pub daily_delta: i64,
    pub monthly_delta: i64,
}

/// The sums of one user's entitlements in one scope.
pub struct AccountEntitlementDeltaRow {
    pub user_id: String,
    pub scope: AccountEntitlementScope,
    pub delta: EntitlementQuotaDelta,
}

/// One user's entitlement sums: those of the current month and the
/// permanent ones.
pub struct UserEntitlementDeltas {
    pub user_id: String,
    pub month: EntitlementQuotaDelta,
    pub permanent: EntitlementQuotaDelta,
}

/// Nothing added.
pub open spec fn zero_delta() -> EntitlementQuotaDelta {
    EntitlementQuotaDelta { hourly_delta: 0, daily_delta: 0, monthly_delta: 0 }
}

/// The models of the rows: user, scope and sums.
pub open spec fn delta_rows_model(v: Seq<AccountEntitlementDeltaRow>) -> Seq<(Seq<char>, AccountEntitlementScope, EntitlementQuotaDelta)> {
    v.map_values(|r: AccountEntitlementDeltaRow| (r.user_id@, r.scope, r.delta))
}

/// The models of the per-user entries: user, month sums, permanent sums.
pub open spec fn user_deltas_model(v: Seq<UserEntitlementDeltas>) -> Seq<(Seq<char>, EntitlementQuotaDelta, EntitlementQuotaDelta)> {
    v.map_values(|e: UserEntitlementDeltas| (e.user_id@, e.month, e.permanent))
}

/// The users of the rows, each once, in the order they first appear.
pub open spec fn users_in_order(rows: Seq<(Seq<char>, AccountEntitlementScope, EntitlementQuotaDelta)>) -> Seq<Seq<char>>
    decreases rows.len(),
{
    if rows.len() == 0 {
        Seq::empty()
    } else {
        let p = users_in_order(rows.drop_last());
        if p.contains(rows.last().0) { p } else { p.push(rows.last().0) }
    }
}

/// The sums of the last row of user `u` in scope `s`, or nothing added when
/// no row has them.
pub open spec fn scope_delta(rows: Seq<(Seq<char>, AccountEntitlementScope, EntitlementQuotaDelta)>, u: Seq<char>, s: AccountEntitlementScope) -> EntitlementQuotaDelta
    decreases rows.len(),
{
    if rows.len() == 0 {
        zero_delta()
    } else if rows.last().0 == u && rows.last().1 == s {
        rows.last().2
    } else {
        scope_delta(rows.drop_last(), u, s)
    }
}

/// One entry per user of the rows, in the order the users first appear,
/// with the user's month sums and permanent sums (nothing added for a scope
/// without a row; a row of another scope only makes its user appear).
pub open spec fn grouped_deltas_spec(rows: Seq<(Seq<char>, AccountEntitlementScope, EntitlementQuotaDelta)>) -> Seq<(Seq<char>, EntitlementQuotaDelta, EntitlementQuotaDelta)> {
    let us = users_in_order(rows);
    Seq::new(us.len(), |i: int| (us[i], scope_delta(rows, us[i], AccountEntitlementScope::Month), scope_delta(rows, us[i], AccountEntitlementScope::Permanent)))
}

proof fn lemma_users_distinct(rows: Seq<(Seq<char>, AccountEntitlementScope, EntitlementQuotaDelta)>)
    ensures
        users_in_order(rows).no_duplicates(),
    decreases rows.len(),
{
    if rows.len() > 0 {
        lemma_users_distinct(rows.drop_last());
    }
}

proof fn lemma_absent_user_has_nothing(rows: Seq<(Seq<char>, AccountEntitlementScope, EntitlementQuotaDelta)>, u: Seq<char>, s: AccountEntitlementScope)
    requires
        !users_in_order(rows).contains(u),
    ensures
        scope_delta(rows, u, s) == zero_delta(),
    decreases rows.len(),
{
    if rows.len() > 0 {
        let p = users_in_order(rows.drop_last());
        if p.contains(rows.last().0) {
            assert(rows.last().0 != u);
        } else {
            assert(p.push(rows.last().0).last() == rows.last().0);
            assert forall|x: Seq<char>| p.contains(x) implies p.push(rows.last().0).contains(x) by {
                let k = choose|k: int| 0 <= k < p.len() && p[k] == x;
                assert(p.push(rows.last().0)[k] == x);
            }
        }
        lemma_absent_user_has_nothing(rows.drop_last(), u, s);
    }
}

proof fn lemma_scope_delta_push(p: Seq<(Seq<char>, AccountEntitlementScope, EntitlementQuotaDelta)>, row: (Seq<char>, AccountEntitlementScope, EntitlementQuotaDelta), x: Seq<char>, s: AccountEntitlementScope)
    ensures
        scope_delta(p.push(row), x, s) == (if row.0 == x && row.1 == s { row.2 } else { scope_delta(p, x, s) }),
{
    assert(p.push(row).drop_last() =~= p);
}

/// Every user has one entry among the grouped sums, as in a map keyed by
/// user.
pub proof fn lemma_grouped_users_distinct(rows: Seq<(Seq<char>, AccountEntitlementScope, EntitlementQuotaDelta)>)
    ensures
        forall|a: int, b: int| 0 <= a < b < grouped_deltas_spec(rows).len() ==> #[trigger] grouped_deltas_spec(rows)[a].0 != #[trigger] grouped_deltas_spec(rows)[b].0,
{
    lemma_users_distinct(rows);
}

fn find_user(out: &Vec<UserEntitlementDeltas>, u: &str) -> (r: Option<usize>)
    ensures
        match r {
            Some(k) => k < out.len() && out@[k as int].user_id@ == u@,
            None => forall|k: int| 0 <= k < out.len() ==> #[trigger] out@[k].user_id@ != u@,
        },
{
    let mut k: usize = 0;
    while k < out.len()
        invariant
            k <= out.len(),
            forall|j: int| 0 <= j < k ==> #[trigger] out@[j].user_id@ != u@,
        decreases out.len() - k,
    {
        if str_eq(out[k].user_id.as_str(), u) {
            return Some(k);
        }
        k = k + 1;
    }
    None
}

/// Gathers the sums read per user and scope into one entry per user, in the
/// order the users first appear: the month sums and the permanent sums of
/// the user's last row of each scope, nothing added for a scope without one.
pub fn group_account_entitlement_deltas(rows: &Vec<AccountEntitlementDeltaRow>) -> (r: Vec<UserEntitlementDeltas>)
    ensures
        user_deltas_model(r@) == grouped_deltas_spec(delta_rows_model(rows@)),
{
    let ghost m = delta_rows_model(rows@);
    let mut out: Vec<UserEntitlementDeltas> = Vec::new();
    let mut i: usize = 0;
    proof {
        assert(m.take(0) =~= Seq::<(Seq<char>, AccountEntitlementScope, EntitlementQuotaDelta)>::empty());
        assert(user_deltas_model(out@) =~= grouped_deltas_spec(m.take(0)));
    }
    while i < rows.len()
        invariant
            i <= rows.len(),
            m == delta_rows_model(rows@),
            user_deltas_model(out@) == grouped_deltas_spec(m.take(i as int)),
        decreases rows.len() - i,
    {
        let ghost p = m.take(i as int);
        let ghost q = m.take(i + 1);
        let ghost old_out = user_deltas_model(out@);
        let ghost us = users_in_order(p);
        let row = &rows[i];
        proof {
            assert(q =~= p.push(m[i as int]));
            assert(q.drop_last() =~= p);
            assert(q.last() == m[i as int]);
            assert(m[i as int] == (row.user_id@, row.scope, row.delta));
            lemma_users_distinct(p);
            assert(old_out.len() == us.len());
            assert forall|k: int| 0 <= k < us.len() implies #[trigger] us[k] == out@[k].user_id@ by {
                assert(old_out[k].0 == us[k]);
            }
        }
        let ghost old_vec = out@;
        let pos = find_user(&out, row.user_id.as_str());
        match pos {
            Some(k) => {
                let mut month = out[k].month;
                let mut permanent = out[k].permanent;
                match row.scope {
                    AccountEntitlementScope::Month => { month = row.delta; }
                    AccountEntitlementScope::Permanent => { permanent = row.delta; }
                    AccountEntitlementScope::Other => {}
                }
                let entry = UserEntitlementDeltas { user_id: out[k].user_id.clone(), month, permanent };
                out.set(k, entry);
                proof {
                    assert(us.contains(row.user_id@)) by {
                        assert(us[k as int] == row.user_id@);
                    }
                    assert(users_in_order(q) == us);
                    assert forall|j: int| 0 <= j < us.len() && j != k implies #[trigger] us[j] != row.user_id@ by {
                        assert(us[j] != us[k as int]);
                    }
                    assert forall|j: int| 0 <= j < us.len() implies #[trigger] user_deltas_model(out@)[j] == grouped_deltas_spec(q)[j] by {
                        lemma_scope_delta_push(p, m[i as int], us[j], AccountEntitlementScope::Month);
                        lemma_scope_delta_push(p, m[i as int], us[j], AccountEntitlementScope::Permanent);
                        assert(old_out[j] == grouped_deltas_spec(p)[j]);
                        assert(old_out[j] == (old_vec[j].user_id@, old_vec[j].month, old_vec[j].permanent));
                        if j != k {
                            assert(out@[j] == old_vec[j]);
                        }
                        assert(grouped_deltas_spec(q)[j] == (us[j], scope_delta(q, us[j], AccountEntitlementScope::Month), scope_delta(q, us[j], AccountEntitlementScope::Permanent)));
                    }
                    assert(user_deltas_model(out@) =~= grouped_deltas_spec(q));
                }
            }
            None => {
                let mut month = EntitlementQuotaDelta { hourly_delta: 0, daily_delta: 0, monthly_delta: 0 };
                let mut permanent = EntitlementQuotaDelta { hourly_delta: 0, daily_delta: 0, monthly_delta: 0 };
                match row.scope {
                    AccountEntitlementScope::Month => { month = row.delta; }
                    AccountEntitlementScope::Permanent => { permanent = row.delta; }
                    AccountEntitlementScope::Other => {}
                }
                out.push(UserEntitlementDeltas { user_id: row.user_id.clone(), month, permanent });
                proof {
                    assert(!us.contains(row.user_id@)) by {
                        if us.contains(row.user_id@) {
                            let k = choose|k: int| 0 <= k < us.len() && us[k] == row.user_id@;
                            assert(out@[k].user_id@ != row.user_id@);
                        }
                    }
                    assert(users_in_order(q) == us.push(row.user_id@));
                    lemma_absent_user_has_nothing(p, row.user_id@, AccountEntitlementScope::Month);
                    lemma_absent_user_has_nothing(p, row.user_id@, AccountEntitlementScope::Permanent);
                    let us2 = us.push(row.user_id@);
                    assert forall|j: int| 0 <= j < us2.len() implies #[trigger] user_deltas_model(out@)[j] == grouped_deltas_spec(q)[j] by {
                        lemma_scope_delta_push(p, m[i as int], us2[j], AccountEntitlementScope::Month);
                        lemma_scope_delta_push(p, m[i as int], us2[j], AccountEntitlementScope::Permanent);
                        assert(grouped_deltas_spec(q)[j] == (us2[j], scope_delta(q, us2[j], AccountEntitlementScope::Month), scope_delta(q, us2[j], AccountEntitlementScope::Permanent)));
                        if j < us.len() {
                            assert(out@[j] == old_vec[j]);
                            assert(old_out[j] == grouped_deltas_spec(p)[j]);
                            assert(old_out[j] == (old_vec[j].user_id@, old_vec[j].month, old_vec[j].permanent));
                            assert(us2[j] == us[j]);
                            assert(us[j] != row.user_id@) by {
                                assert(out@[j].user_id@ != row.user_id@);
                            }
                        }
                    }
                    assert(user_deltas_model(out@) =~= grouped_deltas_spec(q));
                }
            }
        }
        i = i + 1;
    }
    proof {
        assert(m.take(rows.len() as int) =~= m);
    }
    out
}

} // verus!
