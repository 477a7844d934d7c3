//! The SQL of the alert event and alert group queries: subject and
//! request-kind expressions, filters, and the CTEs that list and group alerts.

use vstd::prelude::*;
use vstd::string::*;
use crate::alerts::query_text::{
    EVENTS_AUTH_SELECT_HEAD, EVENTS_AUTH_SELECT_MID, EVENTS_AUTH_SELECT_TAIL, EVENTS_MAINT_SELECT_HEAD,
    EVENTS_MAINT_SELECT_MID, EVENTS_MAINT_SELECT_TAIL, EVENTS_UNION_SELECT, GROUPS_CLASSIFY_0,
    GROUPS_CLASSIFY_1, GROUPS_CLASSIFY_2, GROUPS_CLASSIFY_3, GROUPS_CLASSIFY_4, GROUPS_CLASSIFY_5,
    GROUPS_WINDOW_0, GROUPS_WINDOW_1, GROUPS_WINDOW_2,
};
use crate::alerts::semantic::{
    ALERT_TYPE_UPSTREAM_KEY_BLOCKED, ALERT_TYPE_UPSTREAM_RATE_LIMITED_429,
    ALERT_TYPE_UPSTREAM_USAGE_LIMIT_432, ALERT_TYPE_USER_QUOTA_EXHAUSTED,
    ALERT_TYPE_USER_REQUEST_RATE_LIMITED,
};
use crate::sql::{
    SqlPiece, SqlQuery, bind_text, concat_pieces, empty_piece, extends, lemma_extends_empty,
    lemma_extends_step, lemma_extends_then, lit, opt_int_piece, opt_text_piece, push_opt_int,
    push_opt_text, then,
};
use crate::store::KeyStore;
use crate::text::{cat, concat_all, int_decimal, push_i64_decimal, str_eq, string_views};

verus! {

/// The filters of an alert listing. `request_kinds` holds the canonical
/// request-kind keys asked for, in the order given.
pub struct AlertEventFilters {
    pub alert_type: Option<String>,
    pub since: Option<i64>,
    pub until: Option<i64>,
    pub user_id: Option<String>,
    pub token_id: Option<String>,
    pub key_id: Option<String>,
    pub request_kinds: Vec<String>,
}

/// What the alert queries take from the request-kind catalogue and the alert
/// source registry: the source names bound for each half of the alerts CTE,
/// the SQL expressions that resolve a row's request kind and its label, and
/// the length in minutes of the request-rate window.
pub struct AlertSqlFragments {
    pub auth_token_log_source: String,
    pub maintenance_record_source: String,
    pub effective_request_kind_sql: String,
    pub effective_request_kind_label_sql: String,
    pub maintenance_request_kind_sql: String,
    pub maintenance_request_kind_label_sql: String,
    pub request_rate_minutes: i64,
}



/// The SQL naming the kind of subject an alert row is about: the key for
/// upstream alerts that carry one, else the user, the token, the key, and
/// `token` as a last resort.
pub open spec fn subject_kind_sql_spec(a: Seq<char>) -> Seq<char> {
    "CASE WHEN "@ + a + ".alert_type IN ('upstream_rate_limited_429', 'upstream_usage_limit_432', 'upstream_key_blocked') AND "@
        + a + ".key_id IS NOT NULL THEN 'key' WHEN "@ + a + ".user_id IS NOT NULL THEN 'user' WHEN "@
        + a + ".token_id IS NOT NULL THEN 'token' WHEN "@ + a + ".key_id IS NOT NULL THEN 'key' ELSE 'token' END"@
}

/// The SQL naming the id of the subject an alert row is about, in the same
/// order as its kind, and `unknown` as a last resort.
pub open spec fn subject_id_sql_spec(a: Seq<char>) -> Seq<char> {
    "CASE WHEN "@ + a + ".alert_type IN ('upstream_rate_limited_429', 'upstream_usage_limit_432', 'upstream_key_blocked') AND "@
        + a + ".key_id IS NOT NULL THEN "@ + a + ".key_id WHEN "@ + a + ".user_id IS NOT NULL THEN "@ + a
        + ".user_id WHEN "@ + a + ".token_id IS NOT NULL THEN "@ + a + ".token_id WHEN "@ + a
        + ".key_id IS NOT NULL THEN "@ + a + ".key_id ELSE 'unknown' END"@
}

/// The SQL of a row's request-kind key, blank or missing read as `unknown`.
pub open spec fn group_request_kind_sql_spec(a: Seq<char>) -> Seq<char> {
    "COALESCE(NULLIF(TRIM("@ + a + ".request_kind_key), ''), 'unknown')"@
}

/// The items of `s` in order, each only at its first occurrence.
pub open spec fn dedup_first(s: Seq<Seq<char>>) -> Seq<Seq<char>>
    decreases s.len(),
{
    if s.len() == 0 {
        Seq::empty()
    } else {
        let d = dedup_first(s.drop_last());
        if d.contains(s.last()) { d } else { d.push(s.last()) }
    }
}

/// Keeping first occurrences leaves no value twice, keeps every value, adds
/// none, and never lengthens.
pub proof fn lemma_dedup_first(s: Seq<Seq<char>>)
    ensures
        dedup_first(s).no_duplicates(),
        forall|x: Seq<char>| s.contains(x) <==> #[trigger] dedup_first(s).contains(x),
        dedup_first(s).len() <= s.len(),
    decreases s.len(),
{
    if s.len() > 0 {
        let p = s.drop_last();
        lemma_dedup_first(p);
        let d = dedup_first(p);
        assert forall|x: Seq<char>| s.contains(x) <==> #[trigger] dedup_first(s).contains(x) by {
            if s.contains(x) {
                let k = choose|k: int| 0 <= k < s.len() && s[k] == x;
                if k < p.len() {
                    assert(p[k] == x);
                    assert(p.contains(x));
                }
                if !d.contains(s.last()) {
                    assert(d.push(s.last())[d.len() as int] == s.last());
                    if d.contains(x) {
                        let j = choose|j: int| 0 <= j < d.len() && d[j] == x;
                        assert(d.push(s.last())[j] == x);
                    }
                }
            }
            if dedup_first(s).contains(x) {
                if !d.contains(s.last()) {
                    let j = choose|j: int| 0 <= j < d.len() + 1 && d.push(s.last())[j] == x;
                    if j < d.len() {
                        assert(d[j] == x);
                    } else {
                        assert(s[s.len() - 1] == x);
                    }
                }
                if d.contains(x) {
                    let k = choose|k: int| 0 <= k < p.len() && p[k] == x;
                    assert(s[k] == x);
                }
            }
        }
    }
}

/// A placeholder for each value, separated by commas.
pub open spec fn in_list_piece(n: Seq<Seq<char>>) -> SqlPiece
    decreases n.len(),
{
    if n.len() == 0 {
        empty_piece()
    } else if n.len() == 1 {
        bind_text(n[0])
    } else {
        then(then(in_list_piece(n.drop_last()), lit(", "@)), bind_text(n.last()))
    }
}

/// The request-kind filter: nothing when no kind is asked for, else
/// ` AND expr IN (?, ...)` binding each distinct kind once, in first-seen order.
pub open spec fn request_kind_filter_piece(expr: Seq<char>, kinds: Seq<Seq<char>>) -> SqlPiece {
    let n = dedup_first(kinds);
    if n.len() == 0 {
        empty_piece()
    } else {
        then(then(lit(" AND "@ + expr + " IN ("@), in_list_piece(n)), lit(")"@))
    }
}



/// How an alert type narrows the auth-token-log rows.
pub open spec fn auth_alert_type_piece(t: Seq<char>) -> SqlPiece {
    if t == ALERT_TYPE_UPSTREAM_RATE_LIMITED_429@ {
        then(lit(" AND atl.failure_kind = "@), bind_text(t))
    } else if t == ALERT_TYPE_UPSTREAM_USAGE_LIMIT_432@ {
        lit(" AND atl.result_status = 'quota_exhausted' AND COALESCE(atl.http_status, rl.tavily_status_code) = 432"@)
    } else if t == ALERT_TYPE_USER_REQUEST_RATE_LIMITED@ {
        lit(" AND atl.result_status = 'quota_exhausted' AND atl.counts_business_quota = 0"@)
    } else if t == ALERT_TYPE_USER_QUOTA_EXHAUSTED@ {
        lit(" AND atl.result_status = 'quota_exhausted' AND COALESCE(atl.http_status, rl.tavily_status_code, 0) <> 432 AND atl.counts_business_quota <> 0"@)
    } else {
        lit(" AND 1 = 0"@)
    }
}

/// How an optional alert type narrows the auth-token-log rows.
pub open spec fn auth_type_part(o: Option<String>) -> SqlPiece {
    match o {
        Some(t) => auth_alert_type_piece(t@),
        None => empty_piece(),
    }
}

/// The filters on the auth-token-log half of the alerts CTE, `key_expr`
/// being the SQL of a row's key.
pub open spec fn auth_filters_piece(f: AlertEventFilters, key_expr: Seq<char>) -> SqlPiece {
    concat_pieces(seq![
        auth_type_part(f.alert_type),
        opt_int_piece(" AND atl.created_at >= "@, f.since),
        opt_int_piece(" AND atl.created_at <= "@, f.until),
        opt_text_piece(" AND u.id = "@, f.user_id),
        opt_text_piece(" AND atl.token_id = "@, f.token_id),
        opt_text_piece(" AND "@ + key_expr + " = "@, f.key_id),
    ])
}

/// How an optional alert type narrows the maintenance rows: any type but a
/// blocked key matches nothing there.
pub open spec fn maintenance_type_part(o: Option<String>) -> SqlPiece {
    match o {
        Some(t) => if t@ != ALERT_TYPE_UPSTREAM_KEY_BLOCKED@ { lit(" AND 1 = 0"@) } else { empty_piece() },
        None => empty_piece(),
    }
}

/// The filters on the maintenance half of the alerts CTE.
pub open spec fn maintenance_filters_piece(f: AlertEventFilters) -> SqlPiece {
    concat_pieces(seq![
        maintenance_type_part(f.alert_type),
        opt_int_piece(" AND m.created_at >= "@, f.since),
        opt_int_piece(" AND m.created_at <= "@, f.until),
        opt_text_piece(" AND u.id = "@, f.user_id),
        opt_text_piece(" AND COALESCE(m.auth_token_id, atl.token_id) = "@, f.token_id),
        opt_text_piece(" AND m.key_id = "@, f.key_id),
    ])
}

/// The key expression of the auth-token-log half.
pub open spec fn auth_key_expr() -> Seq<char> {
    "COALESCE(atl.api_key_id, rl.api_key_id)"@
}

/// `WITH alerts AS (...)`: auth-token-log alerts and blocked-key maintenance
/// records, each filtered, as one list of alert rows.
pub open spec fn alert_events_cte_piece(f: AlertEventFilters, x: AlertSqlFragments) -> SqlPiece {
    concat_pieces(seq![
        lit("WITH alerts AS ("@),
        lit(" SELECT "@),
        bind_text(x.auth_token_log_source@),
        lit(EVENTS_AUTH_SELECT_HEAD@),
        lit(x.effective_request_kind_sql@),
        lit(EVENTS_AUTH_SELECT_MID@),
        lit(x.effective_request_kind_label_sql@),
        lit(EVENTS_AUTH_SELECT_TAIL@),
        auth_filters_piece(f, auth_key_expr()),
        lit(EVENTS_UNION_SELECT@),
        bind_text(x.maintenance_record_source@),
        lit(EVENTS_MAINT_SELECT_HEAD@),
        lit(x.maintenance_request_kind_sql@),
        lit(EVENTS_MAINT_SELECT_MID@),
        lit(x.maintenance_request_kind_label_sql@),
        lit(EVENTS_MAINT_SELECT_TAIL@),
        maintenance_filters_piece(f),
        lit(")"@),
    ])
}

/// The request-kind expression of the classified alerts.
pub open spec fn normalized_kind_expr() -> Seq<char> {
    "COALESCE(NULLIF(TRIM(request_kind_key_normalized), ''), 'unknown')"@
}

/// The alerts CTE followed by the CTEs that classify, filter, window and
/// group alerts into mother and compatibility groups (`grouped_alerts`).
pub open spec fn alert_groups_cte_piece(f: AlertEventFilters, x: AlertSqlFragments) -> SqlPiece {
    concat_pieces(seq![
        alert_events_cte_piece(f, x),
        lit(GROUPS_CLASSIFY_0@),
        lit(subject_kind_sql_spec("alerts"@)),
        lit(GROUPS_CLASSIFY_1@),
        lit(subject_id_sql_spec("alerts"@)),
        lit(GROUPS_CLASSIFY_2@),
        lit(group_request_kind_sql_spec("alerts"@)),
        lit(GROUPS_CLASSIFY_3@),
        lit(int_decimal(x.request_rate_minutes as int)),
        lit(GROUPS_CLASSIFY_4@),
        lit(int_decimal(x.request_rate_minutes * 60)),
        lit(GROUPS_CLASSIFY_5@),
        request_kind_filter_piece(normalized_kind_expr(), string_views(f.request_kinds@)),
        lit(GROUPS_WINDOW_0@),
        lit(int_decimal(x.request_rate_minutes as int)),
        lit(GROUPS_WINDOW_1@),
        lit(int_decimal(x.request_rate_minutes as int)),
        lit(GROUPS_WINDOW_2@),
    ])
}

fn contains_string(v: &Vec<String>, s: &str) -> (r: bool)
    ensures
        r == string_views(v@).contains(s@),
{
    let mut i: usize = 0;
    while i < v.len()
        invariant
            i <= v.len(),
            forall|j: int| 0 <= j < i ==> v@[j]@ != s@,
        decreases v.len() - i,
    {
        if str_eq(v[i].as_str(), s) {
            assert(string_views(v@)[i as int] == s@);
            return true;
        }
        i = i + 1;
    }
    proof {
        if string_views(v@).contains(s@) {
            let j = choose|j: int| 0 <= j < string_views(v@).len() && string_views(v@)[j] == s@;
            assert(v@[j]@ == s@);
        }
    }
    false
}

/// The request-kind filter values, each once, in first-seen order.
/// `request_kinds` are the filter values as canonical request-kind keys:
/// keys that name the same kind are equal, so each kind is asked for once.
pub fn normalize_alert_request_kind_filters(request_kinds: &Vec<String>) -> (r: Vec<String>)
    ensures
        string_views(r@) == dedup_first(string_views(request_kinds@)),
        string_views(r@).no_duplicates(),
        forall|k: Seq<char>| string_views(request_kinds@).contains(k) <==> #[trigger] string_views(r@).contains(k),
        r.len() <= request_kinds.len(),
{
    let mut deduped: Vec<String> = Vec::new();
    let mut i: usize = 0;
    while i < request_kinds.len()
        invariant
            i <= request_kinds.len(),
            string_views(deduped@) == dedup_first(string_views(request_kinds@).take(i as int)),
        decreases request_kinds.len() - i,
    {
        let seen = contains_string(&deduped, request_kinds[i].as_str());
        let ghost before = deduped@;
        proof {
            assert(string_views(request_kinds@).take(i + 1).drop_last() =~= string_views(request_kinds@).take(i as int));
        }
        if !seen {
            deduped.push(request_kinds[i].clone());
            assert(string_views(deduped@) =~= string_views(before).push(request_kinds@[i as int]@));
        }
        i = i + 1;
    }
    assert(string_views(request_kinds@).take(request_kinds.len() as int) =~= string_views(request_kinds@));
    proof {
        lemma_dedup_first(string_views(request_kinds@));
    }
    deduped
}



fn push_auth_alert_type(query: &mut SqlQuery, alert_type: &String)
    ensures
        extends(*old(query), *final(query), auth_alert_type_piece(alert_type@)),
{
    let t = alert_type.as_str();
    if str_eq(t, ALERT_TYPE_UPSTREAM_RATE_LIMITED_429) {
        let ghost q0 = *query;
        query.push(" AND atl.failure_kind = ");
        let ghost q1 = *query;
        query.push_bind_text(alert_type.clone());
        proof { lemma_extends_then(q0, q1, *query, lit(" AND atl.failure_kind = "@), bind_text(alert_type@)); }
    } else if str_eq(t, ALERT_TYPE_UPSTREAM_USAGE_LIMIT_432) {
        query.push(" AND atl.result_status = 'quota_exhausted' AND COALESCE(atl.http_status, rl.tavily_status_code) = 432");
    } else if str_eq(t, ALERT_TYPE_USER_REQUEST_RATE_LIMITED) {
        query.push(" AND atl.result_status = 'quota_exhausted' AND atl.counts_business_quota = 0");
    } else if str_eq(t, ALERT_TYPE_USER_QUOTA_EXHAUSTED) {
        query.push(" AND atl.result_status = 'quota_exhausted' AND COALESCE(atl.http_status, rl.tavily_status_code, 0) <> 432 AND atl.counts_business_quota <> 0");
    } else {
        query.push(" AND 1 = 0");
    }
}

impl KeyStore {
    /// The SQL naming the kind of subject of the alert rows under `alias`.
    pub fn alert_subject_kind_sql(alias: &str) -> (r: String)
        ensures
            r@ == subject_kind_sql_spec(alias@),
    {
        let r = cat(&vec![
            "CASE WHEN ", alias,
            ".alert_type IN ('upstream_rate_limited_429', 'upstream_usage_limit_432', 'upstream_key_blocked') AND ",
            alias, ".key_id IS NOT NULL THEN 'key' WHEN ", alias, ".user_id IS NOT NULL THEN 'user' WHEN ",
            alias, ".token_id IS NOT NULL THEN 'token' WHEN ", alias, ".key_id IS NOT NULL THEN 'key' ELSE 'token' END",
        ]);
        proof {
            reveal_with_fuel(concat_all, 12);
        }
        r
    }

    /// The SQL naming the id of the subject of the alert rows under `alias`.
    pub fn alert_subject_id_sql(alias: &str) -> (r: String)
        ensures
            r@ == subject_id_sql_spec(alias@),
    {
        let r = cat(&vec![
            "CASE WHEN ", alias,
            ".alert_type IN ('upstream_rate_limited_429', 'upstream_usage_limit_432', 'upstream_key_blocked') AND ",
            alias, ".key_id IS NOT NULL THEN ", alias, ".key_id WHEN ", alias, ".user_id IS NOT NULL THEN ",
            alias, ".user_id WHEN ", alias, ".token_id IS NOT NULL THEN ", alias, ".token_id WHEN ", alias,
            ".key_id IS NOT NULL THEN ", alias, ".key_id ELSE 'unknown' END",
        ]);
        proof {
            reveal_with_fuel(concat_all, 21);
        }
        r
    }

    /// The SQL of the request-kind key of the rows under `alias`.
    pub fn alert_group_request_kind_sql(alias: &str) -> (r: String)
        ensures
            r@ == group_request_kind_sql_spec(alias@),
    {
        let r = cat(&vec!["COALESCE(NULLIF(TRIM(", alias, ".request_kind_key), ''), 'unknown')"]);
        proof {
            reveal_with_fuel(concat_all, 4);
        }
        r
    }

    /// Appends ` AND expr IN (?, ...)` for the distinct request kinds asked
    /// for, or nothing when none is.
    pub fn push_alert_request_kind_filter(query: &mut SqlQuery, request_kind_expr: &str, request_kinds: &Vec<String>)
        ensures
            extends(*old(query), *final(query), request_kind_filter_piece(request_kind_expr@, string_views(request_kinds@))),
    {
        let normalized = normalize_alert_request_kind_filters(request_kinds);
        let ghost n = string_views(normalized@);
        if normalized.len() == 0 {
            proof { lemma_extends_empty(*query); }
            return;
        }
        let ghost q0 = *query;
        query.push(" AND ");
        query.push(request_kind_expr);
        query.push(" IN (");
        let ghost head = lit(" AND "@ + request_kind_expr@ + " IN ("@);
        proof {
            assert(query.sql@ =~= q0.sql@ + head.text);
            assert(query.args() =~= q0.args() + head.args);
        }
        let ghost q1 = *query;
        let mut i: usize = 0;
        while i < normalized.len()
            invariant
                0 <= i <= normalized.len(),
                n == string_views(normalized@),
                n.len() > 0,
                extends(q1, *query, in_list_piece(n.take(i as int))),
            decreases normalized.len() - i,
        {
            let ghost qa = *query;
            proof {
                assert(n.take(i + 1).drop_last() =~= n.take(i as int));
                assert(n.take(i + 1).last() == n[i as int]);
            }
            if i > 0 {
                query.push(", ");
                let ghost qb = *query;
                query.push_bind_text(normalized[i].clone());
                proof {
                    lemma_extends_then(qa, qb, *query, lit(", "@), bind_text(n[i as int]));
                    lemma_extends_then(q1, qa, *query, in_list_piece(n.take(i as int)), then(lit(", "@), bind_text(n[i as int])));
                    let p = in_list_piece(n.take(i as int));
                    assert(query.sql@ =~= q1.sql@ + in_list_piece(n.take(i + 1)).text);
                    assert(query.args() =~= q1.args() + in_list_piece(n.take(i + 1)).args);
                }
            } else {
                query.push_bind_text(normalized[i].clone());
                proof {
                    assert(n.take(1) =~= seq![n[0]]);
                    assert(query.sql@ =~= q1.sql@ + in_list_piece(n.take(1)).text);
                    assert(query.args() =~= q1.args() + in_list_piece(n.take(1)).args);
                }
            }
            i = i + 1;
        }
        let ghost q2 = *query;
        query.push(")");
        proof {
            assert(n.take(n.len() as int) =~= n);
            lemma_extends_then(q0, q1, q2, head, in_list_piece(n));
            lemma_extends_then(q0, q2, *query, then(head, in_list_piece(n)), lit(")"@));
        }
    }

    /// Appends the filters of the auth-token-log half of the alerts CTE.
    pub fn push_auth_alert_filters(query: &mut SqlQuery, filters: &AlertEventFilters, key_expr: &str)
        ensures
            extends(*old(query), *final(query), auth_filters_piece(*filters, key_expr@)),
    {
        let ghost q0 = *query;
        proof { lemma_extends_empty(q0); }
        let ghost done: Seq<SqlPiece> = Seq::empty();
        let ghost qa = *query;
        match &filters.alert_type {
            Some(t) => push_auth_alert_type(query, t),
            None => { proof { lemma_extends_empty(*query); } }
        }
        proof {
            lemma_extends_step(q0, qa, *query, done, auth_type_part(filters.alert_type));
            done = done.push(auth_type_part(filters.alert_type));
        }
        let ghost qa = *query;
        push_opt_int(query, " AND atl.created_at >= ", filters.since);
        proof {
            lemma_extends_step(q0, qa, *query, done, opt_int_piece(" AND atl.created_at >= "@, filters.since));
            done = done.push(opt_int_piece(" AND atl.created_at >= "@, filters.since));
        }
        let ghost qa = *query;
        push_opt_int(query, " AND atl.created_at <= ", filters.until);
        proof {
            lemma_extends_step(q0, qa, *query, done, opt_int_piece(" AND atl.created_at <= "@, filters.until));
            done = done.push(opt_int_piece(" AND atl.created_at <= "@, filters.until));
        }
        let ghost qa = *query;
        push_opt_text(query, " AND u.id = ", &filters.user_id);
        proof {
            lemma_extends_step(q0, qa, *query, done, opt_text_piece(" AND u.id = "@, filters.user_id));
            done = done.push(opt_text_piece(" AND u.id = "@, filters.user_id));
        }
        let ghost qa = *query;
        push_opt_text(query, " AND atl.token_id = ", &filters.token_id);
        proof {
            lemma_extends_step(q0, qa, *query, done, opt_text_piece(" AND atl.token_id = "@, filters.token_id));
            done = done.push(opt_text_piece(" AND atl.token_id = "@, filters.token_id));
        }
        let key_prefix = cat(&vec![" AND ", key_expr, " = "]);
        proof { reveal_with_fuel(concat_all, 4); }
        let ghost qa = *query;
        push_opt_text(query, key_prefix.as_str(), &filters.key_id);
        proof {
            lemma_extends_step(q0, qa, *query, done, opt_text_piece(" AND "@ + key_expr@ + " = "@, filters.key_id));
            done = done.push(opt_text_piece(" AND "@ + key_expr@ + " = "@, filters.key_id));
            assert(done =~= seq![
                auth_type_part(filters.alert_type),
                opt_int_piece(" AND atl.created_at >= "@, filters.since),
                opt_int_piece(" AND atl.created_at <= "@, filters.until),
                opt_text_piece(" AND u.id = "@, filters.user_id),
                opt_text_piece(" AND atl.token_id = "@, filters.token_id),
                opt_text_piece(" AND "@ + key_expr@ + " = "@, filters.key_id),
            ]);
        }
    }
}


fn push_maintenance_alert_type(query: &mut SqlQuery, alert_type: &Option<String>)
    ensures
        extends(*old(query), *final(query), maintenance_type_part(*alert_type)),
{
    match alert_type {
        Some(t) => {
            if !str_eq(t.as_str(), ALERT_TYPE_UPSTREAM_KEY_BLOCKED) {
                query.push(" AND 1 = 0");
            } else {
                proof { lemma_extends_empty(*query); }
            }
        }
        None => {
            proof { lemma_extends_empty(*query); }
        }
    }
}

impl KeyStore {
    /// Appends the filters of the maintenance half of the alerts CTE.
    pub fn push_maintenance_alert_filters(query: &mut SqlQuery, filters: &AlertEventFilters)
        ensures
            extends(*old(query), *final(query), maintenance_filters_piece(*filters)),
    {
        let ghost q0 = *query;
        proof { lemma_extends_empty(q0); }
        let ghost done: Seq<SqlPiece> = Seq::empty();
        let ghost qa = *query;
        push_maintenance_alert_type(query, &filters.alert_type);
        proof {
            lemma_extends_step(q0, qa, *query, done, maintenance_type_part(filters.alert_type));
            done = done.push(maintenance_type_part(filters.alert_type));
        }
        let ghost qa = *query;
        push_opt_int(query, " AND m.created_at >= ", filters.since);
        proof {
            lemma_extends_step(q0, qa, *query, done, opt_int_piece(" AND m.created_at >= "@, filters.since));
            done = done.push(opt_int_piece(" AND m.created_at >= "@, filters.since));
        }
        let ghost qa = *query;
        push_opt_int(query, " AND m.created_at <= ", filters.until);
        proof {
            lemma_extends_step(q0, qa, *query, done, opt_int_piece(" AND m.created_at <= "@, filters.until));
            done = done.push(opt_int_piece(" AND m.created_at <= "@, filters.until));
        }
        let ghost qa = *query;
        push_opt_text(query, " AND u.id = ", &filters.user_id);
        proof {
            lemma_extends_step(q0, qa, *query, done, opt_text_piece(" AND u.id = "@, filters.user_id));
            done = done.push(opt_text_piece(" AND u.id = "@, filters.user_id));
        }
        let ghost qa = *query;
        push_opt_text(query, " AND COALESCE(m.auth_token_id, atl.token_id) = ", &filters.token_id);
        proof {
            lemma_extends_step(q0, qa, *query, done, opt_text_piece(" AND COALESCE(m.auth_token_id, atl.token_id) = "@, filters.token_id));
            done = done.push(opt_text_piece(" AND COALESCE(m.auth_token_id, atl.token_id) = "@, filters.token_id));
        }
        let ghost qa = *query;
        push_opt_text(query, " AND m.key_id = ", &filters.key_id);
        proof {
            lemma_extends_step(q0, qa, *query, done, opt_text_piece(" AND m.key_id = "@, filters.key_id));
            done = done.push(opt_text_piece(" AND m.key_id = "@, filters.key_id));
            assert(done =~= seq![
                maintenance_type_part(filters.alert_type),
                opt_int_piece(" AND m.created_at >= "@, filters.since),
                opt_int_piece(" AND m.created_at <= "@, filters.until),
                opt_text_piece(" AND u.id = "@, filters.user_id),
                opt_text_piece(" AND COALESCE(m.auth_token_id, atl.token_id) = "@, filters.token_id),
                opt_text_piece(" AND m.key_id = "@, filters.key_id),
            ]);
        }
    }

    /// Appends `WITH alerts AS (...)`: the filtered auth-token-log alerts and
    /// blocked-key maintenance records as one list of alert rows.
    #[verifier::spinoff_prover]
    pub fn push_alert_events_cte(query: &mut SqlQuery, filters: &AlertEventFilters, fragments: &AlertSqlFragments)
        ensures
            extends(*old(query), *final(query), alert_events_cte_piece(*filters, *fragments)),
    {
        let ghost q0 = *query;
        proof { lemma_extends_empty(q0); }
        let ghost done: Seq<SqlPiece> = Seq::empty();
        let ghost qa = *query;
        query.push("WITH alerts AS (");
        proof { lemma_extends_step(q0, qa, *query, done, lit("WITH alerts AS ("@)); done = done.push(lit("WITH alerts AS ("@)); }
        let ghost qa = *query;
        query.push(" SELECT ");
        proof { lemma_extends_step(q0, qa, *query, done, lit(" SELECT "@)); done = done.push(lit(" SELECT "@)); }
        let ghost qa = *query;
        query.push_bind_text(fragments.auth_token_log_source.clone());
        proof {
            lemma_extends_step(q0, qa, *query, done, bind_text(fragments.auth_token_log_source@));
            done = done.push(bind_text(fragments.auth_token_log_source@));
        }
        let ghost qa = *query;
        query.push(EVENTS_AUTH_SELECT_HEAD);
        proof { lemma_extends_step(q0, qa, *query, done, lit(EVENTS_AUTH_SELECT_HEAD@)); done = done.push(lit(EVENTS_AUTH_SELECT_HEAD@)); }
        let ghost qa = *query;
        query.push(fragments.effective_request_kind_sql.as_str());
        proof {
            lemma_extends_step(q0, qa, *query, done, lit(fragments.effective_request_kind_sql@));
            done = done.push(lit(fragments.effective_request_kind_sql@));
        }
        let ghost qa = *query;
        query.push(EVENTS_AUTH_SELECT_MID);
        proof { lemma_extends_step(q0, qa, *query, done, lit(EVENTS_AUTH_SELECT_MID@)); done = done.push(lit(EVENTS_AUTH_SELECT_MID@)); }
        let ghost qa = *query;
        query.push(fragments.effective_request_kind_label_sql.as_str());
        proof {
            lemma_extends_step(q0, qa, *query, done, lit(fragments.effective_request_kind_label_sql@));
            done = done.push(lit(fragments.effective_request_kind_label_sql@));
        }
        let ghost qa = *query;
        query.push(EVENTS_AUTH_SELECT_TAIL);
        proof { lemma_extends_step(q0, qa, *query, done, lit(EVENTS_AUTH_SELECT_TAIL@)); done = done.push(lit(EVENTS_AUTH_SELECT_TAIL@)); }
        let ghost qa = *query;
        KeyStore::push_auth_alert_filters(query, filters, "COALESCE(atl.api_key_id, rl.api_key_id)");
        proof {
            lemma_extends_step(q0, qa, *query, done, auth_filters_piece(*filters, auth_key_expr()));
            done = done.push(auth_filters_piece(*filters, auth_key_expr()));
        }
        let ghost qa = *query;
        query.push(EVENTS_UNION_SELECT);
        proof { lemma_extends_step(q0, qa, *query, done, lit(EVENTS_UNION_SELECT@)); done = done.push(lit(EVENTS_UNION_SELECT@)); }
        let ghost qa = *query;
        query.push_bind_text(fragments.maintenance_record_source.clone());
        proof {
            lemma_extends_step(q0, qa, *query, done, bind_text(fragments.maintenance_record_source@));
            done = done.push(bind_text(fragments.maintenance_record_source@));
        }
        let ghost qa = *query;
        query.push(EVENTS_MAINT_SELECT_HEAD);
        proof { lemma_extends_step(q0, qa, *query, done, lit(EVENTS_MAINT_SELECT_HEAD@)); done = done.push(lit(EVENTS_MAINT_SELECT_HEAD@)); }
        let ghost qa = *query;
        query.push(fragments.maintenance_request_kind_sql.as_str());
        proof {
            lemma_extends_step(q0, qa, *query, done, lit(fragments.maintenance_request_kind_sql@));
            done = done.push(lit(fragments.maintenance_request_kind_sql@));
        }
        let ghost qa = *query;
        query.push(EVENTS_MAINT_SELECT_MID);
        proof { lemma_extends_step(q0, qa, *query, done, lit(EVENTS_MAINT_SELECT_MID@)); done = done.push(lit(EVENTS_MAINT_SELECT_MID@)); }
        let ghost qa = *query;
        query.push(fragments.maintenance_request_kind_label_sql.as_str());
        proof {
            lemma_extends_step(q0, qa, *query, done, lit(fragments.maintenance_request_kind_label_sql@));
            done = done.push(lit(fragments.maintenance_request_kind_label_sql@));
        }
        let ghost qa = *query;
        query.push(EVENTS_MAINT_SELECT_TAIL);
        proof { lemma_extends_step(q0, qa, *query, done, lit(EVENTS_MAINT_SELECT_TAIL@)); done = done.push(lit(EVENTS_MAINT_SELECT_TAIL@)); }
        let ghost qa = *query;
        KeyStore::push_maintenance_alert_filters(query, filters);
        proof {
            lemma_extends_step(q0, qa, *query, done, maintenance_filters_piece(*filters));
            done = done.push(maintenance_filters_piece(*filters));
        }
        let ghost qa = *query;
        query.push(")");
        proof {
            lemma_extends_step(q0, qa, *query, done, lit(")"@));
            done = done.push(lit(")"@));
            assert(done =~= seq![
                lit("WITH alerts AS ("@),
                lit(" SELECT "@),
                bind_text(fragments.auth_token_log_source@),
                lit(EVENTS_AUTH_SELECT_HEAD@),
                lit(fragments.effective_request_kind_sql@),
                lit(EVENTS_AUTH_SELECT_MID@),
                lit(fragments.effective_request_kind_label_sql@),
                lit(EVENTS_AUTH_SELECT_TAIL@),
                auth_filters_piece(*filters, auth_key_expr()),
                lit(EVENTS_UNION_SELECT@),
                bind_text(fragments.maintenance_record_source@),
                lit(EVENTS_MAINT_SELECT_HEAD@),
                lit(fragments.maintenance_request_kind_sql@),
                lit(EVENTS_MAINT_SELECT_MID@),
                lit(fragments.maintenance_request_kind_label_sql@),
                lit(EVENTS_MAINT_SELECT_TAIL@),
                maintenance_filters_piece(*filters),
                lit(")"@),
            ]);
        }
    }
}

impl KeyStore {

    /// Appends the alerts CTE and the CTEs that classify, filter, window and
    /// group alerts, ending with `grouped_alerts`: one row per mother group
    /// (consecutive semantic windows of one subject) and per compatibility group.
    #[verifier::spinoff_prover]
    #[verifier::rlimit(40)]
    pub fn push_alert_groups_cte(query: &mut SqlQuery, filters: &AlertEventFilters, fragments: &AlertSqlFragments)
        requires
            i64::MIN <= fragments.request_rate_minutes * 60 <= i64::MAX,
        ensures
            extends(*old(query), *final(query), alert_groups_cte_piece(*filters, *fragments)),
    {
        let subject_kind_sql = KeyStore::alert_subject_kind_sql("alerts");
        let subject_id_sql = KeyStore::alert_subject_id_sql("alerts");
        let request_kind_sql = KeyStore::alert_group_request_kind_sql("alerts");
        let minutes = fragments.request_rate_minutes;
        let seconds = minutes * 60;
        let ghost q0 = *query;
        proof { lemma_extends_empty(q0); }
        let ghost done: Seq<SqlPiece> = Seq::empty();
        let ghost qa = *query;
        KeyStore::push_alert_events_cte(query, filters, fragments);
        proof {
            lemma_extends_step(q0, qa, *query, done, alert_events_cte_piece(*filters, *fragments));
            done = done.push(alert_events_cte_piece(*filters, *fragments));
        }
        let ghost qa = *query;
        query.push(GROUPS_CLASSIFY_0);
        proof {
            lemma_extends_step(q0, qa, *query, done, lit(GROUPS_CLASSIFY_0@));
            done = done.push(lit(GROUPS_CLASSIFY_0@));
        }
        let ghost qa = *query;
        query.push(subject_kind_sql.as_str());
        proof {
            lemma_extends_step(q0, qa, *query, done, lit(subject_kind_sql_spec("alerts"@)));
            done = done.push(lit(subject_kind_sql_spec("alerts"@)));
        }
        let ghost qa = *query;
        query.push(GROUPS_CLASSIFY_1);
        proof {
            lemma_extends_step(q0, qa, *query, done, lit(GROUPS_CLASSIFY_1@));
            done = done.push(lit(GROUPS_CLASSIFY_1@));
        }
        let ghost qa = *query;
        query.push(subject_id_sql.as_str());
        proof {
            lemma_extends_step(q0, qa, *query, done, lit(subject_id_sql_spec("alerts"@)));
            done = done.push(lit(subject_id_sql_spec("alerts"@)));
        }
        let ghost qa = *query;
        query.push(GROUPS_CLASSIFY_2);
        proof {
            lemma_extends_step(q0, qa, *query, done, lit(GROUPS_CLASSIFY_2@));
            done = done.push(lit(GROUPS_CLASSIFY_2@));
        }
        let ghost qa = *query;
        query.push(request_kind_sql.as_str());
        proof {
            lemma_extends_step(q0, qa, *query, done, lit(group_request_kind_sql_spec("alerts"@)));
            done = done.push(lit(group_request_kind_sql_spec("alerts"@)));
        }
        let ghost qa = *query;
        query.push(GROUPS_CLASSIFY_3);
        proof {
            lemma_extends_step(q0, qa, *query, done, lit(GROUPS_CLASSIFY_3@));
            done = done.push(lit(GROUPS_CLASSIFY_3@));
        }
        let ghost qa = *query;
        query.push_i64(minutes);
        proof {
            lemma_extends_step(q0, qa, *query, done, lit(int_decimal(fragments.request_rate_minutes as int)));
            done = done.push(lit(int_decimal(fragments.request_rate_minutes as int)));
        }
        let ghost qa = *query;
        query.push(GROUPS_CLASSIFY_4);
        proof {
            lemma_extends_step(q0, qa, *query, done, lit(GROUPS_CLASSIFY_4@));
            done = done.push(lit(GROUPS_CLASSIFY_4@));
        }
        let ghost qa = *query;
        query.push_i64(seconds);
        proof {
            lemma_extends_step(q0, qa, *query, done, lit(int_decimal(fragments.request_rate_minutes * 60)));
            done = done.push(lit(int_decimal(fragments.request_rate_minutes * 60)));
        }
        let ghost qa = *query;
        query.push(GROUPS_CLASSIFY_5);
        proof {
            lemma_extends_step(q0, qa, *query, done, lit(GROUPS_CLASSIFY_5@));
            done = done.push(lit(GROUPS_CLASSIFY_5@));
        }
        let ghost qa = *query;
        KeyStore::push_alert_request_kind_filter(query, "COALESCE(NULLIF(TRIM(request_kind_key_normalized), ''), 'unknown')", &filters.request_kinds);
        proof {
            lemma_extends_step(q0, qa, *query, done, request_kind_filter_piece(normalized_kind_expr(), string_views(filters.request_kinds@)));
            done = done.push(request_kind_filter_piece(normalized_kind_expr(), string_views(filters.request_kinds@)));
        }
        let ghost qa = *query;
        query.push(GROUPS_WINDOW_0);
        proof {
            lemma_extends_step(q0, qa, *query, done, lit(GROUPS_WINDOW_0@));
            done = done.push(lit(GROUPS_WINDOW_0@));
        }
        let ghost qa = *query;
        query.push_i64(minutes);
        proof {
            lemma_extends_step(q0, qa, *query, done, lit(int_decimal(fragments.request_rate_minutes as int)));
            done = done.push(lit(int_decimal(fragments.request_rate_minutes as int)));
        }
        let ghost qa = *query;
        query.push(GROUPS_WINDOW_1);
        proof {
            lemma_extends_step(q0, qa, *query, done, lit(GROUPS_WINDOW_1@));
            done = done.push(lit(GROUPS_WINDOW_1@));
        }
        let ghost qa = *query;
        query.push_i64(minutes);
        proof {
            lemma_extends_step(q0, qa, *query, done, lit(int_decimal(fragments.request_rate_minutes as int)));
            done = done.push(lit(int_decimal(fragments.request_rate_minutes as int)));
        }
        let ghost qa = *query;
        query.push(GROUPS_WINDOW_2);
        proof {
            lemma_extends_step(q0, qa, *query, done, lit(GROUPS_WINDOW_2@));
            done = done.push(lit(GROUPS_WINDOW_2@));
        }
        proof {
            assert(done =~= seq![
                alert_events_cte_piece(*filters, *fragments),
                lit(GROUPS_CLASSIFY_0@),
                lit(subject_kind_sql_spec("alerts"@)),
                lit(GROUPS_CLASSIFY_1@),
                lit(subject_id_sql_spec("alerts"@)),
                lit(GROUPS_CLASSIFY_2@),
                lit(group_request_kind_sql_spec("alerts"@)),
                lit(GROUPS_CLASSIFY_3@),
                lit(int_decimal(fragments.request_rate_minutes as int)),
                lit(GROUPS_CLASSIFY_4@),
                lit(int_decimal(fragments.request_rate_minutes * 60)),
                lit(GROUPS_CLASSIFY_5@),
                request_kind_filter_piece(normalized_kind_expr(), string_views(filters.request_kinds@)),
                lit(GROUPS_WINDOW_0@),
                lit(int_decimal(fragments.request_rate_minutes as int)),
                lit(GROUPS_WINDOW_1@),
                lit(int_decimal(fragments.request_rate_minutes as int)),
                lit(GROUPS_WINDOW_2@),
            ]);
        }
    }
}

} // verus!
