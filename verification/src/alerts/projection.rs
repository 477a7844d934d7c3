//! Alert events and alert groups rebuilt from the rows of the alert queries.

use vstd::prelude::*;
use vstd::string::*;
use crate::alerts::grouping::{indexed_id, semantic_group_base_id_spec, semantic_mother_id_from_child};
use crate::alerts::model::{
    AlertEntityRefModel, AlertEventModel, AlertEventRecord, AlertGroupModel, AlertGroupRecord,
    AlertRequestRef, AlertRequestRefModel, AlertSemanticWindow, AlertSemanticWindowModel, AlertSourceRef, AlertSourceRefModel, AlertUserRefModel,
    TokenRequestKind, TokenRequestKindModel, clone_entity, clone_kind, clone_user, event_models,
    group_seq_models, lemma_group_seq_models_push, opt_kind, opt_str,
};
use crate::alerts::semantic::{
    ALERT_TYPE_UPSTREAM_RATE_LIMITED_429, ALERT_TYPE_USER_QUOTA_EXHAUSTED,
    ALERT_TYPE_USER_REQUEST_RATE_LIMITED, event_semantic_window, hour_window_spec,
    month_window_spec, semantic_window_spec, window_arith_ok,
};
use crate::alerts::subject::{
    alert_group_id, alert_group_id_spec, alert_subject_tuple, build_alert_entity_ref,
    build_alert_request_kind, build_alert_title_and_summary, build_alert_user_ref,
    entity_label_or_unknown, kind_label_or_unknown, subject_tuple_spec, title_and_summary_spec,
};
use crate::store::KeyStore;
use crate::text::{cat, clone_opt_string, concat_all, owned, str_eq, trim, trim_string};

verus! {

/// One row of the alert event query.
pub struct AlertEventProjectionRow {
    pub source_kind: String,
    pub source_id: String,
    pub row_sort_id: String,
    pub alert_type: String,
    pub occurred_at: i64,
    pub token_id: Option<String>,
    pub key_id: Option<String>,
    pub request_log_id: Option<i64>,
    pub method: Option<String>,
    pub path: Option<String>,
    pub query: Option<String>,
    pub request_kind_key: Option<String>,
    pub request_kind_label: Option<String>,
    pub request_kind_detail: Option<String>,
    pub result_status: Option<String>,
    pub failure_kind: Option<String>,
    pub error_message: Option<String>,
    pub counts_business_quota: Option<bool>,
    pub user_id: Option<String>,
    pub user_display_name: Option<String>,
    pub user_username: Option<String>,
    pub reason_code: Option<String>,
    pub reason_summary: Option<String>,
    pub reason_detail: Option<String>,
}

/// One row of the alert group query: a mother or compatibility group and the
/// sort id of its latest event.
pub struct AlertGroupProjectionRow {
    pub grouping_kind: String,
    pub row_sort_id: String,
    pub alert_type: String,
    pub subject_kind: String,
    pub subject_id: String,
    pub count: i64,
    pub first_seen: i64,
    pub last_seen: i64,
    pub semantic_window_kind: Option<String>,
    pub semantic_window_minutes: Option<i64>,
    pub semantic_window_start: Option<i64>,
    pub semantic_window_end: Option<i64>,
    pub child_count: i64,
}

/// The alert type of a row: its own when not blank, else what its failure
/// kind, result status and quota flag show; `None` when nothing does.
pub open spec fn resolved_alert_type(row: AlertEventProjectionRow) -> Option<Seq<char>> {
    if trim(row.alert_type@).len() > 0 {
        Some(row.alert_type@)
    } else if opt_str(row.failure_kind) == Some(ALERT_TYPE_UPSTREAM_RATE_LIMITED_429@) {
        Some(ALERT_TYPE_UPSTREAM_RATE_LIMITED_429@)
    } else if opt_str(row.result_status) == Some("quota_exhausted"@) && row.counts_business_quota == Some(false) {
        Some(ALERT_TYPE_USER_REQUEST_RATE_LIMITED@)
    } else if opt_str(row.result_status) == Some("quota_exhausted"@) {
        Some(ALERT_TYPE_USER_QUOTA_EXHAUSTED@)
    } else {
        None
    }
}

/// The user of a row, when it names one.
pub open spec fn row_user(row: AlertEventProjectionRow) -> Option<AlertUserRefModel> {
    match row.user_id {
        Some(id) => Some(AlertUserRefModel {
            user_id: id@,
            display_name: opt_str(row.user_display_name),
            username: opt_str(row.user_username),
        }),
        None => None,
    }
}

/// An entity labelled with its own id.
pub open spec fn entity_of(id: Option<String>) -> Option<AlertEntityRefModel> {
    match id {
        Some(i) => Some(AlertEntityRefModel { id: i@, label: i@ }),
        None => None,
    }
}

/// The request kind of a row: `finalized` (what the request-kind catalogue
/// makes of the row's method, path, query and stored kind) when the row has a
/// method and a path, else its stored key and label (the key when no label).
pub open spec fn row_request_kind(row: AlertEventProjectionRow, finalized: Option<TokenRequestKind>) -> Option<TokenRequestKindModel> {
    if row.method is Some && row.path is Some {
        opt_kind(finalized)
    } else {
        match row.request_kind_key {
            Some(k) => Some(TokenRequestKindModel {
                key: k@,
                label: match row.request_kind_label { Some(l) => l@, None => k@ },
                detail: opt_str(row.request_kind_detail),
            }),
            None => None,
        }
    }
}

/// The request a row was logged with, `POST` and `/unknown` standing in for
/// a missing method and path.
pub open spec fn row_request(row: AlertEventProjectionRow) -> Option<AlertRequestRefModel> {
    match row.request_log_id {
        Some(id) => Some(AlertRequestRefModel {
            id,
            method: match row.method { Some(m) => m@, None => "POST"@ },
            path: match row.path { Some(p) => p@, None => "/unknown"@ },
            query: opt_str(row.query),
        }),
        None => None,
    }
}

/// The event a row stands for, of alert type `t`, before its limit window is
/// worked out.
pub open spec fn projected_event(row: AlertEventProjectionRow, t: Seq<char>, finalized: Option<TokenRequestKind>) -> AlertEventModel {
    let user = row_user(row);
    let token = entity_of(row.token_id);
    let key = entity_of(row.key_id);
    let kind = row_request_kind(row, finalized);
    let subject = subject_tuple_spec(t, user, token, key);
    let text = title_and_summary_spec(t, subject.2, entity_label_or_unknown(token), entity_label_or_unknown(key),
        kind_label_or_unknown(kind), opt_str(row.reason_summary));
    AlertEventModel {
        id: row.source_kind@ + ":"@ + row.source_id@,
        alert_type: t,
        title: text.0,
        summary: text.1,
        occurred_at: row.occurred_at,
        subject_kind: subject.0,
        subject_id: subject.1,
        subject_label: subject.2,
        user,
        token,
        key,
        request: row_request(row),
        request_kind: kind,
        failure_kind: opt_str(row.failure_kind),
        result_status: opt_str(row.result_status),
        error_message: opt_str(row.error_message),
        reason_code: opt_str(row.reason_code),
        reason_summary: opt_str(row.reason_summary),
        reason_detail: opt_str(row.reason_detail),
        source: AlertSourceRefModel { kind: row.source_kind@, id: row.source_id@ },
        semantic_window: None,
    }
}

/// A window is the one a specification gives, or both are absent.
pub open spec fn window_fits(w: Option<AlertSemanticWindow>, spec: Option<AlertSemanticWindowModel>) -> bool {
    &&& (w matches Some(x) ==> spec == Some(x@))
    &&& (w is None <==> spec is None)
}

/// An event with its limit window left out.
pub open spec fn without_window(e: AlertEventModel) -> AlertEventModel {
    AlertEventModel { semantic_window: None, ..e }
}

fn resolve_alert_type(row: &AlertEventProjectionRow) -> (r: Option<String>)
    ensures
        match r {
            Some(t) => resolved_alert_type(*row) == Some(t@),
            None => resolved_alert_type(*row) is None,
        },
{
    let trimmed = trim_string(row.alert_type.as_str());
    if trimmed.unicode_len() > 0 {
        return Some(row.alert_type.clone());
    }
    let failure_429 = match &row.failure_kind {
        Some(f) => str_eq(f.as_str(), ALERT_TYPE_UPSTREAM_RATE_LIMITED_429),
        None => false,
    };
    if failure_429 {
        return Some(owned(ALERT_TYPE_UPSTREAM_RATE_LIMITED_429));
    }
    let exhausted = match &row.result_status {
        Some(s) => str_eq(s.as_str(), "quota_exhausted"),
        None => false,
    };
    if exhausted && row.counts_business_quota == Some(false) {
        Some(owned(ALERT_TYPE_USER_REQUEST_RATE_LIMITED))
    } else if exhausted {
        Some(owned(ALERT_TYPE_USER_QUOTA_EXHAUSTED))
    } else {
        None
    }
}

fn row_request_exec(row: &AlertEventProjectionRow) -> (r: Option<AlertRequestRef>)
    ensures
        match r {
            Some(q) => row_request(*row) == Some(q@),
            None => row_request(*row) is None,
        },
{
    match row.request_log_id {
        Some(id) => Some(AlertRequestRef {
            id,
            method: match &row.method { Some(m) => m.clone(), None => owned("POST") },
            path: match &row.path { Some(p) => p.clone(), None => owned("/unknown") },
            query: clone_opt_string(&row.query),
        }),
        None => None,
    }
}

impl KeyStore {
    /// The alert event a row of the event query stands for, or `None` when
    /// the row shows no alert type. `finalized_request_kind` is given exactly
    /// when the row's method and path are known: it is what the request-kind
    /// catalogue makes of them, the query and the stored kind;
    /// `default_rate_minutes` is the request-rate window length
    /// for messages that name none.
    pub fn build_alert_event_from_projection(
        row: AlertEventProjectionRow,
        finalized_request_kind: Option<TokenRequestKind>,
        default_rate_minutes: i64,
    ) -> (r: Option<AlertEventRecord>)
        requires
            resolved_alert_type(row) matches Some(t) ==> window_arith_ok(t, opt_str(row.error_message), default_rate_minutes),
            finalized_request_kind is Some <==> (row.method is Some && row.path is Some),
        ensures
            match resolved_alert_type(row) {
                None => r is None,
                Some(t) => r matches Some(e) && {
                    &&& without_window(e@) == projected_event(row, t, finalized_request_kind)
                    &&& exists|day: Option<(i64, i64)>| window_fits(e.semantic_window,
                        #[trigger] semantic_window_spec(t, opt_str(row.error_message), row.occurred_at, default_rate_minutes,
                            hour_window_spec(row.occurred_at), day, month_window_spec(row.occurred_at)))
                },
            },
    {
        let ghost row0 = row;
        let resolved = match resolve_alert_type(&row) {
            Some(t) => t,
            None => return None,
        };
        let request = row_request_exec(&row);
        let AlertEventProjectionRow {
            source_kind,
            source_id,
            row_sort_id: _,
            alert_type: _,
            occurred_at,
            token_id,
            key_id,
            request_log_id: _,
            method: _,
            path: _,
            query: _,
            request_kind_key,
            request_kind_label,
            request_kind_detail,
            result_status,
            failure_kind,
            error_message,
            counts_business_quota: _,
            user_id,
            user_display_name,
            user_username,
            reason_code,
            reason_summary,
            reason_detail,
        } = row;
        let user = build_alert_user_ref(user_id, user_display_name, user_username);
        let token = build_alert_entity_ref(token_id);
        let key = build_alert_entity_ref(key_id);
        let request_kind = build_alert_request_kind(
            finalized_request_kind,
            request_kind_key,
            request_kind_label,
            request_kind_detail,
        );
        let (subject_kind, subject_id, subject_label) = alert_subject_tuple(
            resolved.as_str(),
            user.as_ref(),
            token.as_ref(),
            key.as_ref(),
        );
        let reason: Option<&str> = match &reason_summary {
            Some(s) => Some(s.as_str()),
            None => None,
        };
        let (title, summary) = build_alert_title_and_summary(
            resolved.as_str(),
            subject_label.as_str(),
            token.as_ref(),
            key.as_ref(),
            request_kind.as_ref(),
            reason,
        );
        let id = cat(&vec![source_kind.as_str(), ":", source_id.as_str()]);
        proof { reveal_with_fuel(concat_all, 4); }
        let mut event = AlertEventRecord {
            id,
            alert_type: resolved,
            title,
            summary,
            occurred_at,
            subject_kind,
            subject_id,
            subject_label,
            user,
            token,
            key,
            request,
            request_kind,
            failure_kind,
            result_status,
            error_message,
            reason_code,
            reason_summary,
            reason_detail,
            source: AlertSourceRef { kind: source_kind, id: source_id },
            semantic_window: None,
        };
        proof {
            let t = resolved_alert_type(row0).unwrap();
            assert(event@.user == row_user(row0));
            assert(event@.token == entity_of(row0.token_id));
            assert(event@.key == entity_of(row0.key_id));
            assert(event@.request_kind == row_request_kind(row0, finalized_request_kind));
            assert(without_window(event@) == projected_event(row0, t, finalized_request_kind));
        }
        let window = event_semantic_window(&event, default_rate_minutes);
        proof {
            let t = resolved_alert_type(row0).unwrap();
            let day = choose|day: Option<(i64, i64)>| {
                &&& (window matches Some(w) ==> semantic_window_spec(event@.alert_type, event@.error_message, event.occurred_at, default_rate_minutes, hour_window_spec(event.occurred_at), day, month_window_spec(event.occurred_at)) == Some(w@))
                &&& (window is None <==> semantic_window_spec(event@.alert_type, event@.error_message, event.occurred_at, default_rate_minutes, hour_window_spec(event.occurred_at), day, month_window_spec(event.occurred_at)) is None)
            };
            assert(window_fits(window, semantic_window_spec(t, opt_str(row0.error_message), row0.occurred_at, default_rate_minutes,
                hour_window_spec(row0.occurred_at), day, month_window_spec(row0.occurred_at))));
        }
        event.semantic_window = window;
        Some(event)
    }
}

/// The latest event recorded under `key`, the last entry for it winning.
pub open spec fn latest_for(entries: Seq<(Seq<char>, AlertEventModel)>, key: Seq<char>) -> Option<AlertEventModel>
    decreases entries.len(),
{
    if entries.len() == 0 {
        None
    } else if entries.last().0 == key {
        Some(entries.last().1)
    } else {
        latest_for(entries.drop_last(), key)
    }
}

/// The group a group row stands for, given its latest event: a mother group
/// takes the first mother id of that event and no request kind; a
/// compatibility group takes the event's group id and request kind.
pub open spec fn group_from_row(g: AlertGroupProjectionRow, e: AlertEventModel) -> AlertGroupModel {
    AlertGroupModel {
        id: if g.grouping_kind@ == "mother"@ {
            indexed_id(semantic_group_base_id_spec(e), "mother"@, 0)
        } else {
            alert_group_id_spec(e)
        },
        alert_type: g.alert_type@,
        subject_kind: g.subject_kind@,
        subject_id: g.subject_id@,
        subject_label: e.subject_label,
        user: e.user,
        token: e.token,
        key: e.key,
        request_kind: if g.grouping_kind@ == "compat"@ { e.request_kind } else { None },
        count: g.count,
        first_seen: g.first_seen,
        last_seen: g.last_seen,
        latest_event: e,
        grouping_kind: g.grouping_kind@,
        semantic_window_kind: opt_str(g.semantic_window_kind),
        semantic_window_minutes: g.semantic_window_minutes,
        semantic_window_start: g.semantic_window_start,
        semantic_window_end: g.semantic_window_end,
        semantic_window_key: None,
        child_count: g.child_count,
        event_count: g.count,
        children: Seq::empty(),
        child_events: Seq::empty(),
    }
}

/// The groups of the rows whose latest event is known, in row order.
pub open spec fn group_records_from_rows(groups: Seq<AlertGroupProjectionRow>, latest: Seq<(Seq<char>, AlertEventModel)>) -> Seq<AlertGroupModel>
    decreases groups.len(),
{
    if groups.len() == 0 {
        Seq::empty()
    } else {
        let prev = group_records_from_rows(groups.drop_last(), latest);
        match latest_for(latest, groups.last().row_sort_id@) {
            Some(e) => prev.push(group_from_row(groups.last(), e)),
            None => prev,
        }
    }
}

/// The entries of a list of `(row sort id, event)` pairs, as models.
pub open spec fn entry_models(entries: Seq<(String, AlertEventRecord)>) -> Seq<(Seq<char>, AlertEventModel)> {
    entries.map_values(|p: (String, AlertEventRecord)| (p.0@, p.1@))
}

fn find_latest(entries: &Vec<(String, AlertEventRecord)>, key: &str) -> (r: Option<usize>)
    ensures
        match r {
            Some(i) => i < entries.len() && latest_for(entry_models(entries@), key@) == Some(entries@[i as int].1@),
            None => latest_for(entry_models(entries@), key@) is None,
        },
{
    let ghost m = entry_models(entries@);
    let mut i: usize = entries.len();
    assert(m.take(i as int) =~= m);
    while i > 0
        invariant
            i <= entries.len(),
            m == entry_models(entries@),
            latest_for(m, key@) == latest_for(m.take(i as int), key@),
        decreases i,
    {
        let j = i - 1;
        proof {
            assert(m.take(i as int).drop_last() =~= m.take(j as int));
            assert(m.take(i as int).last() == m[j as int]);
        }
        if str_eq(entries[j].0.as_str(), key) {
            return Some(j);
        }
        i = j;
    }
    proof {
        assert(m.take(0) =~= Seq::<(Seq<char>, AlertEventModel)>::empty());
    }
    None
}

impl KeyStore {
    /// The groups of the group rows, each with its latest event looked up by
    /// its row sort id in `latest_events` (the last entry for an id wins);
    /// rows whose latest event is missing are left out.
    pub fn build_alert_group_records(
        groups: Vec<AlertGroupProjectionRow>,
        latest_events: &Vec<(String, AlertEventRecord)>,
    ) -> (r: Vec<AlertGroupRecord>)
        ensures
            group_seq_models(r@) == group_records_from_rows(groups@, entry_models(latest_events@)),
    {
        let ghost gs = groups@;
        let ghost lm = entry_models(latest_events@);
        let mut out: Vec<AlertGroupRecord> = Vec::new();
        let mut i: usize = 0;
        while i < groups.len()
            invariant
                i <= groups.len(),
                gs == groups@,
                lm == entry_models(latest_events@),
                group_seq_models(out@) == group_records_from_rows(gs.take(i as int), lm),
            decreases groups.len() - i,
        {
            let g = &groups[i];
            proof {
                assert(gs.take(i + 1).drop_last() =~= gs.take(i as int));
                assert(gs.take(i + 1).last() == gs[i as int]);
            }
            match find_latest(latest_events, g.row_sort_id.as_str()) {
                Some(j) => {
                    let latest = latest_events[j].1.duplicate();
                    let is_mother = str_eq(g.grouping_kind.as_str(), "mother");
                    let is_compat = str_eq(g.grouping_kind.as_str(), "compat");
                    let id = if is_mother {
                        semantic_mother_id_from_child(&latest, 0)
                    } else {
                        alert_group_id(&latest)
                    };
                    let record = AlertGroupRecord {
                        id,
                        alert_type: g.alert_type.clone(),
                        subject_kind: g.subject_kind.clone(),
                        subject_id: g.subject_id.clone(),
                        subject_label: latest.subject_label.clone(),
                        user: clone_user(&latest.user),
                        token: clone_entity(&latest.token),
                        key: clone_entity(&latest.key),
                        request_kind: if is_compat { clone_kind(&latest.request_kind) } else { None },
                        count: g.count,
                        first_seen: g.first_seen,
                        last_seen: g.last_seen,
                        latest_event: latest,
                        grouping_kind: g.grouping_kind.clone(),
                        semantic_window_kind: clone_opt_string(&g.semantic_window_kind),
                        semantic_window_minutes: g.semantic_window_minutes,
                        semantic_window_start: g.semantic_window_start,
                        semantic_window_end: g.semantic_window_end,
                        semantic_window_key: None,
                        child_count: g.child_count,
                        event_count: g.count,
                        children: Vec::new(),
                        child_events: Vec::new(),
                    };
                    proof {
                        assert(group_seq_models(record.children@) =~= Seq::<AlertGroupModel>::empty());
                        assert(event_models(record.child_events@) =~= Seq::<AlertEventModel>::empty());
                        assert(record@ == group_from_row(gs[i as int], latest_events@[j as int].1@));
                        lemma_group_seq_models_push(out@, record);
                    }
                    out.push(record);
                }
                None => {}
            }
            i = i + 1;
        }
        proof {
            assert(gs.take(gs.len() as int) =~= gs);
        }
        out
    }
}

} // verus!
