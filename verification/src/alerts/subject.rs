//! Which user, token or key an alert is about, and how it is titled.

use vstd::prelude::*;
use vstd::string::*;
use crate::text::{cat, concat_all, owned, str_eq, trim_string, trim};
use crate::alerts::model::{
    AlertEntityRef, AlertEntityRefModel, AlertEventModel, AlertEventRecord, AlertUserRef,
    AlertUserRefModel, TokenRequestKind, TokenRequestKindModel, opt_entity, opt_kind, opt_str,
    opt_user,
};
use crate::alerts::semantic::{
    ALERT_TYPE_UPSTREAM_KEY_BLOCKED, ALERT_TYPE_UPSTREAM_RATE_LIMITED_429,
    ALERT_TYPE_UPSTREAM_USAGE_LIMIT_432, ALERT_TYPE_USER_QUOTA_EXHAUSTED,
    ALERT_TYPE_USER_REQUEST_RATE_LIMITED,
};

verus! {

pub const ALERT_SUBJECT_USER: &'static str = "user";
pub const ALERT_SUBJECT_TOKEN: &'static str = "token";
pub const ALERT_SUBJECT_KEY: &'static str = "key";

/// `a:b:c:d`.
pub open spec fn colon4(a: Seq<char>, b: Seq<char>, c: Seq<char>, d: Seq<char>) -> Seq<char> {
    a + seq![':'] + b + seq![':'] + c + seq![':'] + d
}

/// `a:b:c:d` as a new string.
pub fn join_colon4(a: &str, b: &str, c: &str, d: &str) -> (r: String)
    ensures
        r@ == colon4(a@, b@, c@, d@),
{
    let mut r = String::from_str(a);
    r.append(":");
    r.append(b);
    r.append(":");
    r.append(c);
    r.append(":");
    r.append(d);
    proof {
        reveal_strlit(":");
        assert(r@ =~= colon4(a@, b@, c@, d@));
    }
    r
}

/// A user reference when a user id is present.
pub fn build_alert_user_ref(user_id: Option<String>, display_name: Option<String>, username: Option<String>) -> (r: Option<AlertUserRef>)
    ensures
        r == match user_id {
            Some(id) => Some(AlertUserRef { user_id: id, display_name, username }),
            None => None,
        },
{
    match user_id {
        Some(user_id) => Some(AlertUserRef { user_id, display_name, username }),
        None => None,
    }
}

/// An entity reference labelled with its own id, when an id is present.
pub fn build_alert_entity_ref(id: Option<String>) -> (r: Option<AlertEntityRef>)
    ensures
        match id {
            Some(i) => r matches Some(e) && e.id == i && e.label == i,
            None => r is None,
        },
{
    match id {
        Some(id) => Some(AlertEntityRef { label: id.clone(), id }),
        None => None,
    }
}

/// The request kind of an alert. `finalized` is given exactly when the
/// request's method and path are known: it is what the request-kind
/// catalogue made of them, and it is the kind. Otherwise the kind is the
/// stored key with its label (defaulting to the key), if a key is stored.
pub fn build_alert_request_kind(
    finalized: Option<TokenRequestKind>,
    request_kind_key: Option<String>,
    request_kind_label: Option<String>,
    request_kind_detail: Option<String>,
) -> (r: Option<TokenRequestKind>)
    ensures
        finalized is Some ==> r == finalized,
        finalized is None ==> match request_kind_key {
            Some(k) => r matches Some(v) && v.key == k && v.detail == request_kind_detail
                && v.label == match request_kind_label { Some(l) => l, None => k },
            None => r is None,
        },
{
    match finalized {
        Some(kind) => Some(kind),
        None => match request_kind_key {
            Some(key) => {
                let label = match request_kind_label {
                    Some(l) => l,
                    None => key.clone(),
                };
                Some(TokenRequestKind { key, label, detail: request_kind_detail })
            },
            None => None,
        },
    }
}

/// The display label of a user: display name, else username, else id.
pub open spec fn user_label_spec(u: AlertUserRefModel) -> Seq<char> {
    match u.display_name {
        Some(d) => d,
        None => match u.username {
            Some(n) => n,
            None => u.user_id,
        },
    }
}

/// The display label of a user.
pub fn alert_user_label(user: &AlertUserRef) -> (r: String)
    ensures
        r@ == user_label_spec(user@),
{
    match &user.display_name {
        Some(d) => d.clone(),
        None => match &user.username {
            Some(n) => n.clone(),
            None => user.user_id.clone(),
        },
    }
}

/// Whether an alert type is one raised by the upstream service against a key.
pub open spec fn is_upstream_alert_type(t: Seq<char>) -> bool {
    t == ALERT_TYPE_UPSTREAM_RATE_LIMITED_429@ || t == ALERT_TYPE_UPSTREAM_USAGE_LIMIT_432@
        || t == ALERT_TYPE_UPSTREAM_KEY_BLOCKED@
}

pub open spec fn user_subject(u: Option<AlertUserRefModel>) -> Option<(Seq<char>, Seq<char>, Seq<char>)> {
    match u {
        Some(u) => Some((ALERT_SUBJECT_USER@, u.user_id, user_label_spec(u))),
        None => None,
    }
}

pub open spec fn token_subject(t: Option<AlertEntityRefModel>) -> Option<(Seq<char>, Seq<char>, Seq<char>)> {
    match t {
        Some(t) => Some((ALERT_SUBJECT_TOKEN@, t.id, t.label)),
        None => None,
    }
}

pub open spec fn key_subject(k: Option<AlertEntityRefModel>) -> Option<(Seq<char>, Seq<char>, Seq<char>)> {
    match k {
        Some(k) => Some((ALERT_SUBJECT_KEY@, k.id, k.label)),
        None => None,
    }
}

pub open spec fn first_some3<A>(a: Option<A>, b: Option<A>, c: Option<A>) -> Option<A> {
    if a is Some { a } else if b is Some { b } else { c }
}

/// The subject `(kind, id, label)` of an alert: upstream alerts prefer the
/// key, then the user, then the token; every other alert prefers the user,
/// then the token, then the key; with none of them, an unknown token.
pub open spec fn subject_tuple_spec(
    alert_type: Seq<char>,
    user: Option<AlertUserRefModel>,
    token: Option<AlertEntityRefModel>,
    key: Option<AlertEntityRefModel>,
) -> (Seq<char>, Seq<char>, Seq<char>) {
    let preferred = if is_upstream_alert_type(alert_type) {
        first_some3(key_subject(key), user_subject(user), token_subject(token))
    } else {
        first_some3(user_subject(user), token_subject(token), key_subject(key))
    };
    match preferred {
        Some(s) => s,
        None => (ALERT_SUBJECT_TOKEN@, "unknown"@, "Unknown"@),
    }
}

fn user_subject_exec(user: Option<&AlertUserRef>) -> (r: Option<(String, String, String)>)
    ensures
        match r {
            Some(t) => user_subject(opt_user_ref(user)) == Some((t.0@, t.1@, t.2@)),
            None => user_subject(opt_user_ref(user)) is None,
        },
{
    match user {
        Some(u) => Some((owned(ALERT_SUBJECT_USER), u.user_id.clone(), alert_user_label(u))),
        None => None,
    }
}

fn entity_subject_exec(e: Option<&AlertEntityRef>, kind: &str) -> (r: Option<(String, String, String)>)
    ensures
        match r {
            Some(t) => e matches Some(v) && t.0@ == kind@ && t.1@ == v.id@ && t.2@ == v.label@,
            None => e is None,
        },
{
    match e {
        Some(v) => Some((owned(kind), v.id.clone(), v.label.clone())),
        None => None,
    }
}

/// The model of an optional user reference.
pub open spec fn opt_user_ref(o: Option<&AlertUserRef>) -> Option<AlertUserRefModel> {
    match o {
        Some(u) => Some(u@),
        None => None,
    }
}

/// The model of an optional entity reference.
pub open spec fn opt_entity_ref(o: Option<&AlertEntityRef>) -> Option<AlertEntityRefModel> {
    match o {
        Some(u) => Some(u@),
        None => None,
    }
}

/// Picks the subject `(kind, id, label)` an alert is attributed to.
pub fn alert_subject_tuple(
    alert_type: &str,
    user: Option<&AlertUserRef>,
    token: Option<&AlertEntityRef>,
    key: Option<&AlertEntityRef>,
) -> (r: (String, String, String))
    ensures
        (r.0@, r.1@, r.2@) == subject_tuple_spec(alert_type@, opt_user_ref(user), opt_entity_ref(token), opt_entity_ref(key)),
{
    let upstream = str_eq(alert_type, ALERT_TYPE_UPSTREAM_RATE_LIMITED_429)
        || str_eq(alert_type, ALERT_TYPE_UPSTREAM_USAGE_LIMIT_432)
        || str_eq(alert_type, ALERT_TYPE_UPSTREAM_KEY_BLOCKED);
    let us = user_subject_exec(user);
    let ts = entity_subject_exec(token, ALERT_SUBJECT_TOKEN);
    let ks = entity_subject_exec(key, ALERT_SUBJECT_KEY);
    let preferred = if upstream {
        if ks.is_some() { ks } else if us.is_some() { us } else { ts }
    } else {
        if us.is_some() { us } else if ts.is_some() { ts } else { ks }
    };
    match preferred {
        Some(s) => s,
        None => (owned(ALERT_SUBJECT_TOKEN), owned("unknown"), owned("Unknown")),
    }
}

/// `" Reason: {reason}."` for a non-blank reason (trimmed), else nothing.
pub open spec fn reason_suffix_spec(reason: Option<Seq<char>>) -> Seq<char> {
    match reason {
        Some(r) => if trim(r).len() > 0 { " Reason: "@ + trim(r) + "."@ } else { Seq::empty() },
        None => Seq::empty(),
    }
}

/// The title and summary of an alert.
pub open spec fn title_and_summary_spec(
    alert_type: Seq<char>,
    subject_label: Seq<char>,
    token_label: Seq<char>,
    key_label: Seq<char>,
    request_kind_label: Seq<char>,
    reason: Option<Seq<char>>,
) -> (Seq<char>, Seq<char>) {
    if alert_type == ALERT_TYPE_UPSTREAM_RATE_LIMITED_429@ {
        (subject_label + " hit upstream 429"@,
         "Token "@ + token_label + " received an upstream 429 response for "@ + request_kind_label + "."@)
    } else if alert_type == ALERT_TYPE_UPSTREAM_USAGE_LIMIT_432@ {
        (subject_label + " hit Tavily usage limit"@,
         "Token "@ + token_label + " received Tavily usage-limit 432 for "@ + request_kind_label + " via key "@ + key_label + "."@)
    } else if alert_type == ALERT_TYPE_UPSTREAM_KEY_BLOCKED@ {
        ("Upstream key "@ + key_label + " was blocked"@,
         "Maintenance evidence marked key "@ + key_label + " as blocked."@ + reason_suffix_spec(reason))
    } else if alert_type == ALERT_TYPE_USER_REQUEST_RATE_LIMITED@ {
        (subject_label + " hit the local request-rate limit"@,
         "Token "@ + token_label + " was rate limited by the local rolling window for "@ + request_kind_label + "."@)
    } else if alert_type == ALERT_TYPE_USER_QUOTA_EXHAUSTED@ {
        (subject_label + " exhausted business quota"@,
         "Token "@ + token_label + " exhausted the business quota allowance for "@ + request_kind_label + "."@)
    } else {
        (subject_label + " emitted an alert"@,
         "Alert details are available in the related request and source records."@)
    }
}

/// The label of an optional entity, or `unknown`.
pub open spec fn entity_label_or_unknown(e: Option<AlertEntityRefModel>) -> Seq<char> {
    match e {
        Some(v) => v.label,
        None => "unknown"@,
    }
}

/// The label of an optional request kind, or `Unknown request`.
pub open spec fn kind_label_or_unknown(k: Option<TokenRequestKindModel>) -> Seq<char> {
    match k {
        Some(v) => v.label,
        None => "Unknown request"@,
    }
}

/// The model of an optional request-kind reference.
pub open spec fn opt_kind_ref(o: Option<&TokenRequestKind>) -> Option<TokenRequestKindModel> {
    match o {
        Some(u) => Some(u@),
        None => None,
    }
}

/// The model of an optional string slice.
pub open spec fn opt_slice(o: Option<&str>) -> Option<Seq<char>> {
    match o {
        Some(u) => Some(u@),
        None => None,
    }
}

/// Builds the title and summary shown for an alert.
pub fn build_alert_title_and_summary(
    alert_type: &str,
    subject_label: &str,
    token: Option<&AlertEntityRef>,
    key: Option<&AlertEntityRef>,
    request_kind: Option<&TokenRequestKind>,
    reason_summary: Option<&str>,
) -> (r: (String, String))
    ensures
        (r.0@, r.1@) == title_and_summary_spec(
            alert_type@, subject_label@, entity_label_or_unknown(opt_entity_ref(token)),
            entity_label_or_unknown(opt_entity_ref(key)), kind_label_or_unknown(opt_kind_ref(request_kind)),
            opt_slice(reason_summary)),
{
    let token_label: &str = match token { Some(v) => v.label.as_str(), None => "unknown" };
    let key_label: &str = match key { Some(v) => v.label.as_str(), None => "unknown" };
    let kind_label: &str = match request_kind { Some(v) => v.label.as_str(), None => "Unknown request" };
    let reason_suffix: String = match reason_summary {
        Some(rs) => {
            let t = trim_string(rs);
            if t.unicode_len() > 0 {
                let v = vec![" Reason: ", t.as_str(), "."];
                cat(&v)
            } else {
                String::new()
            }
        },
        None => String::new(),
    };
    proof {
        reveal_with_fuel(concat_all, 8);
    }
    let ghost spec = title_and_summary_spec(
            alert_type@, subject_label@, entity_label_or_unknown(opt_entity_ref(token)),
            entity_label_or_unknown(opt_entity_ref(key)), kind_label_or_unknown(opt_kind_ref(request_kind)),
            opt_slice(reason_summary));
    proof {
        assert(reason_suffix@ =~= reason_suffix_spec(opt_slice(reason_summary)));
    }
    let (t, s) = if str_eq(alert_type, ALERT_TYPE_UPSTREAM_RATE_LIMITED_429) {
        (cat(&vec![subject_label, " hit upstream 429"]),
         cat(&vec!["Token ", token_label, " received an upstream 429 response for ", kind_label, "."]))
    } else if str_eq(alert_type, ALERT_TYPE_UPSTREAM_USAGE_LIMIT_432) {
        (cat(&vec![subject_label, " hit Tavily usage limit"]),
         cat(&vec!["Token ", token_label, " received Tavily usage-limit 432 for ", kind_label, " via key ", key_label, "."]))
    } else if str_eq(alert_type, ALERT_TYPE_UPSTREAM_KEY_BLOCKED) {
        (cat(&vec!["Upstream key ", key_label, " was blocked"]),
         cat(&vec!["Maintenance evidence marked key ", key_label, " as blocked.", reason_suffix.as_str()]))
    } else if str_eq(alert_type, ALERT_TYPE_USER_REQUEST_RATE_LIMITED) {
        (cat(&vec![subject_label, " hit the local request-rate limit"]),
         cat(&vec!["Token ", token_label, " was rate limited by the local rolling window for ", kind_label, "."]))
    } else if str_eq(alert_type, ALERT_TYPE_USER_QUOTA_EXHAUSTED) {
        (cat(&vec![subject_label, " exhausted business quota"]),
         cat(&vec!["Token ", token_label, " exhausted the business quota allowance for ", kind_label, "."]))
    } else {
        (cat(&vec![subject_label, " emitted an alert"]),
         owned("Alert details are available in the related request and source records."))
    };
    proof {
        assert(t@ =~= spec.0);
        assert(s@ =~= spec.1);
    }
    (t, s)
}

/// The request-kind key of an event, or `unknown`.
pub open spec fn kind_key_or_unknown(k: Option<TokenRequestKindModel>) -> Seq<char> {
    match k {
        Some(v) => v.key,
        None => "unknown"@,
    }
}

/// The id of an event's compatibility group: type, subject and request kind.
pub open spec fn alert_group_id_spec(e: AlertEventModel) -> Seq<char> {
    colon4(e.alert_type, e.subject_kind, e.subject_id, kind_key_or_unknown(e.request_kind))
}

/// The request-kind key of an event, or `unknown`.
pub fn group_request_kind_key(event: &AlertEventRecord) -> (r: &str)
    ensures
        r@ == kind_key_or_unknown(event@.request_kind),
{
    match &event.request_kind {
        Some(k) => k.key.as_str(),
        None => "unknown",
    }
}

/// The id of the compatibility group an event belongs to.
pub fn alert_group_id(event: &AlertEventRecord) -> (r: String)
    ensures
        r@ == alert_group_id_spec(event@),
{
    join_colon4(event.alert_type.as_str(), event.subject_kind.as_str(), event.subject_id.as_str(), group_request_kind_key(event))
}

/// A user is labelled by the first name it has: its display name, else its
/// username, else its id.
pub proof fn lemma_user_label_prefers_display_name(u: AlertUserRefModel)
    ensures
        u.display_name matches Some(d) ==> user_label_spec(u) == d,
        u.display_name is None ==> (u.username matches Some(n) ==> user_label_spec(u) == n),
        (u.display_name is None && u.username is None) ==> user_label_spec(u) == u.user_id,
{
}

} // verus!
