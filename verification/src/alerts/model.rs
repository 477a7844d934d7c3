//! Alert records and their mathematical models.

use vstd::prelude::*;
use crate::text::clone_opt_string;

verus! {

/// The model of an optional string.
pub open spec fn opt_str(o: Option<String>) -> Option<Seq<char>> {
    match o {
        Some(s) => Some(s@),
        None => None,
    }
}

/// The user an alert is attributed to.
pub struct AlertUserRef {
    pub user_id: String,
    pub display_name: Option<String>,
    pub username: Option<String>,
}

pub struct AlertUserRefModel {
    pub user_id: Seq<char>,
    pub display_name: Option<Seq<char>>,
    pub username: Option<Seq<char>>,
}

impl View for AlertUserRef {
    type V = AlertUserRefModel;

    open spec fn view(&self) -> AlertUserRefModel {
        AlertUserRefModel {
            user_id: self.user_id@,
            display_name: opt_str(self.display_name),
            username: opt_str(self.username),
        }
    }
}

/// A token or key an alert refers to.
pub struct AlertEntityRef {
    pub id: String,
    pub label: String,
}

pub struct AlertEntityRefModel {
    pub id: Seq<char>,
    pub label: Seq<char>,
}

impl View for AlertEntityRef {
    type V = AlertEntityRefModel;

    open spec fn view(&self) -> AlertEntityRefModel {
        AlertEntityRefModel { id: self.id@, label: self.label@ }
    }
}

/// The request log an alert was raised from.
pub struct AlertRequestRef {
    pub id: i64,
    pub method: String,
    pub path: String,
    pub query: Option<String>,
}

pub struct AlertRequestRefModel {
    pub id: i64,
    pub method: Seq<char>,
    pub path: Seq<char>,
    pub query: Option<Seq<char>>,
}

impl View for AlertRequestRef {
    type V = AlertRequestRefModel;

    open spec fn view(&self) -> AlertRequestRefModel {
        AlertRequestRefModel {
            id: self.id,
            method: self.method@,
            path: self.path@,
            query: opt_str(self.query),
        }
    }
}

/// The canonical request kind of a logged request.
pub struct TokenRequestKind {
    pub key: String,
    pub label: String,
    pub detail: Option<String>,
}

pub struct TokenRequestKindModel {
    pub key: Seq<char>,
    pub label: Seq<char>,
    pub detail: Option<Seq<char>>,
}

impl View for TokenRequestKind {
    type V = TokenRequestKindModel;

    open spec fn view(&self) -> TokenRequestKindModel {
        TokenRequestKindModel { key: self.key@, label: self.label@, detail: opt_str(self.detail) }
    }
}

impl TokenRequestKind {
    /// A request kind with the given key, label and detail.
    pub fn new(key: &str, label: &str, detail: Option<String>) -> (r: TokenRequestKind)
        ensures
            r.key@ == key@,
            r.label@ == label@,
            r.detail == detail,
    {
        TokenRequestKind { key: String::from_str(key), label: String::from_str(label), detail }
    }
}

/// Where an alert event was read from.
pub struct AlertSourceRef {
    pub kind: String,
    pub id: String,
}

pub struct AlertSourceRefModel {
    pub kind: Seq<char>,
    pub id: Seq<char>,
}

impl View for AlertSourceRef {
    type V = AlertSourceRefModel;

    open spec fn view(&self) -> AlertSourceRefModel {
        AlertSourceRefModel { kind: self.kind@, id: self.id@ }
    }
}

/// The kind of limit window an alert belongs to.
#[derive(PartialEq, Eq, Structural, Clone, Copy, Debug)]
pub enum AlertSemanticWindowKind {
    RequestRate,
    RollingHour,
    Day,
    Month,
}

/// The name of a window kind.
pub open spec fn window_kind_str(k: AlertSemanticWindowKind) -> Seq<char> {
    match k {
        AlertSemanticWindowKind::RequestRate => "request_rate"@,
        AlertSemanticWindowKind::RollingHour => "rolling_hour"@,
        AlertSemanticWindowKind::Day => "day"@,
        AlertSemanticWindowKind::Month => "month"@,
    }
}

impl AlertSemanticWindowKind {
    /// The name of this window kind.
    pub fn as_str(&self) -> (r: &'static str)
        ensures
            r@ == window_kind_str(*self),
    {
        match self {
            AlertSemanticWindowKind::RequestRate => "request_rate",
            AlertSemanticWindowKind::RollingHour => "rolling_hour",
            AlertSemanticWindowKind::Day => "day",
            AlertSemanticWindowKind::Month => "month",
        }
    }
}

/// The limit window an alert event falls into.
pub struct AlertSemanticWindow {
    pub kind: AlertSemanticWindowKind,
    pub window_minutes: Option<i64>,
    pub window_start: Option<i64>,
    pub window_end: Option<i64>,
    pub window_key: Option<String>,
}

pub struct AlertSemanticWindowModel {
    pub kind: AlertSemanticWindowKind,
    pub window_minutes: Option<i64>,
    pub window_start: Option<i64>,
    pub window_end: Option<i64>,
    pub window_key: Option<Seq<char>>,
}

impl View for AlertSemanticWindow {
    type V = AlertSemanticWindowModel;

    open spec fn view(&self) -> AlertSemanticWindowModel {
        AlertSemanticWindowModel {
            kind: self.kind,
            window_minutes: self.window_minutes,
            window_start: self.window_start,
            window_end: self.window_end,
            window_key: opt_str(self.window_key),
        }
    }
}

/// One alert event.
pub struct AlertEventRecord {
    pub id: String,
    pub alert_type: String,
    pub title: String,
    pub summary: String,
    pub occurred_at: i64,
    pub subject_kind: String,
    pub subject_id: String,
    pub subject_label: String,
    pub user: Option<AlertUserRef>,
    pub token: Option<AlertEntityRef>,
    pub key: Option<AlertEntityRef>,
    pub request: Option<AlertRequestRef>,
    pub request_kind: Option<TokenRequestKind>,
    pub failure_kind: Option<String>,
    pub result_status: Option<String>,
    pub error_message: Option<String>,
    pub reason_code: Option<String>,
    pub reason_summary: Option<String>,
    pub reason_detail: Option<String>,
    pub source: AlertSourceRef,
    pub semantic_window: Option<AlertSemanticWindow>,
}

pub struct AlertEventModel {
    pub id: Seq<char>,
    pub alert_type: Seq<char>,
    pub title: Seq<char>,
    pub summary: Seq<char>,
    pub occurred_at: i64,
    pub subject_kind: Seq<char>,
    pub subject_id: Seq<char>,
    pub subject_label: Seq<char>,
    pub user: Option<AlertUserRefModel>,
    pub token: Option<AlertEntityRefModel>,
    pub key: Option<AlertEntityRefModel>,
    pub request: Option<AlertRequestRefModel>,
    pub request_kind: Option<TokenRequestKindModel>,
    pub failure_kind: Option<Seq<char>>,
    pub result_status: Option<Seq<char>>,
    pub error_message: Option<Seq<char>>,
    pub reason_code: Option<Seq<char>>,
    pub reason_summary: Option<Seq<char>>,
    pub reason_detail: Option<Seq<char>>,
    pub source: AlertSourceRefModel,
    pub semantic_window: Option<AlertSemanticWindowModel>,
}

pub open spec fn opt_user(o: Option<AlertUserRef>) -> Option<AlertUserRefModel> {
    match o {
        Some(v) => Some(v@),
        None => None,
    }
}

pub open spec fn opt_entity(o: Option<AlertEntityRef>) -> Option<AlertEntityRefModel> {
    match o {
        Some(v) => Some(v@),
        None => None,
    }
}

pub open spec fn opt_request(o: Option<AlertRequestRef>) -> Option<AlertRequestRefModel> {
    match o {
        Some(v) => Some(v@),
        None => None,
    }
}

pub open spec fn opt_kind(o: Option<TokenRequestKind>) -> Option<TokenRequestKindModel> {
    match o {
        Some(v) => Some(v@),
        None => None,
    }
}

pub open spec fn opt_window(o: Option<AlertSemanticWindow>) -> Option<AlertSemanticWindowModel> {
    match o {
        Some(v) => Some(v@),
        None => None,
    }
}

impl View for AlertEventRecord {
    type V = AlertEventModel;

    open spec fn view(&self) -> AlertEventModel {
        AlertEventModel {
            id: self.id@,
            alert_type: self.alert_type@,
            title: self.title@,
            summary: self.summary@,
            occurred_at: self.occurred_at,
            subject_kind: self.subject_kind@,
            subject_id: self.subject_id@,
            subject_label: self.subject_label@,
            user: opt_user(self.user),
            token: opt_entity(self.token),
            key: opt_entity(self.key),
            request: opt_request(self.request),
            request_kind: opt_kind(self.request_kind),
            failure_kind: opt_str(self.failure_kind),
            result_status: opt_str(self.result_status),
            error_message: opt_str(self.error_message),
            reason_code: opt_str(self.reason_code),
            reason_summary: opt_str(self.reason_summary),
            reason_detail: opt_str(self.reason_detail),
            source: self.source@,
            semantic_window: opt_window(self.semantic_window),
        }
    }
}

/// The models of a sequence of events.
pub open spec fn event_models(s: Seq<AlertEventRecord>) -> Seq<AlertEventModel> {
    s.map_values(|e: AlertEventRecord| e@)
}

/// A group of alert events: a compatibility group, a semantic mother group
/// or one child window of a mother group.
pub struct AlertGroupRecord {
    pub id: String,
    pub alert_type: String,
    pub subject_kind: String,
    pub subject_id: String,
    pub subject_label: String,
    pub user: Option<AlertUserRef>,
    pub token: Option<AlertEntityRef>,
    pub key: Option<AlertEntityRef>,
    pub request_kind: Option<TokenRequestKind>,
    pub count: i64,
    pub first_seen: i64,
    pub last_seen: i64,
    pub latest_event: AlertEventRecord,
    pub grouping_kind: String,
    pub semantic_window_kind: Option<String>,
    pub semantic_window_minutes: Option<i64>,
    pub semantic_window_start: Option<i64>,
    pub semantic_window_end: Option<i64>,
    pub semantic_window_key: Option<String>,
    pub child_count: i64,
    pub event_count: i64,
    pub children: Vec<AlertGroupRecord>,
    pub child_events: Vec<AlertEventRecord>,
}

pub struct AlertGroupModel {
    pub id: Seq<char>,
    pub alert_type: Seq<char>,
    pub subject_kind: Seq<char>,
    pub subject_id: Seq<char>,
    pub subject_label: Seq<char>,
    pub user: Option<AlertUserRefModel>,
    pub token: Option<AlertEntityRefModel>,
    pub key: Option<AlertEntityRefModel>,
    pub request_kind: Option<TokenRequestKindModel>,
    pub count: i64,
    pub first_seen: i64,
    pub last_seen: i64,
    pub latest_event: AlertEventModel,
    pub grouping_kind: Seq<char>,
    pub semantic_window_kind: Option<Seq<char>>,
    pub semantic_window_minutes: Option<i64>,
    pub semantic_window_start: Option<i64>,
    pub semantic_window_end: Option<i64>,
    pub semantic_window_key: Option<Seq<char>>,
    pub child_count: i64,
    pub event_count: i64,
    pub children: Seq<AlertGroupModel>,
    pub child_events: Seq<AlertEventModel>,
}

/// The model of a group, children included.
pub open spec fn group_model(g: AlertGroupRecord) -> AlertGroupModel
    decreases g,
{
    AlertGroupModel {
        id: g.id@,
        alert_type: g.alert_type@,
        subject_kind: g.subject_kind@,
        subject_id: g.subject_id@,
        subject_label: g.subject_label@,
        user: opt_user(g.user),
        token: opt_entity(g.token),
        key: opt_entity(g.key),
        request_kind: opt_kind(g.request_kind),
        count: g.count,
        first_seen: g.first_seen,
        last_seen: g.last_seen,
        latest_event: g.latest_event@,
        grouping_kind: g.grouping_kind@,
        semantic_window_kind: opt_str(g.semantic_window_kind),
        semantic_window_minutes: g.semantic_window_minutes,
        semantic_window_start: g.semantic_window_start,
        semantic_window_end: g.semantic_window_end,
        semantic_window_key: opt_str(g.semantic_window_key),
        child_count: g.child_count,
        event_count: g.event_count,
        children: group_seq_models(g.children@),
        child_events: event_models(g.child_events@),
    }
}

/// The models of a sequence of groups, children included.
pub open spec fn group_seq_models(s: Seq<AlertGroupRecord>) -> Seq<AlertGroupModel>
    decreases s,
{
    if s.len() == 0 {
        Seq::empty()
    } else {
        group_seq_models(s.drop_last()).push(group_model(s.last()))
    }
}

/// Appending a group appends its model.
pub proof fn lemma_group_seq_models_push(s: Seq<AlertGroupRecord>, g: AlertGroupRecord)
    ensures
        group_seq_models(s.push(g)) == group_seq_models(s).push(g@),
{
    assert(s.push(g).drop_last() =~= s);
    assert(s.push(g).last() == g);
}

/// The model of a sequence of groups, element by element.
pub proof fn lemma_group_seq_models_index(s: Seq<AlertGroupRecord>)
    ensures
        group_seq_models(s).len() == s.len(),
        forall|i: int| 0 <= i < s.len() ==> #[trigger] group_seq_models(s)[i] == s[i]@,
    decreases s.len(),
{
    if s.len() > 0 {
        lemma_group_seq_models_index(s.drop_last());
        assert forall|i: int| 0 <= i < s.len() implies #[trigger] group_seq_models(s)[i] == s[i]@ by {
            if i < s.len() - 1 {
                assert(group_seq_models(s.drop_last())[i] == s.drop_last()[i]@);
            }
        }
    }
}

/// The recursive model of a sequence equals mapping each group to its model.
pub proof fn lemma_group_seq_models_map(s: Seq<AlertGroupRecord>)
    ensures
        group_seq_models(s) == s.map_values(|g: AlertGroupRecord| g@),
{
    lemma_group_seq_models_index(s);
    assert(group_seq_models(s) =~= s.map_values(|g: AlertGroupRecord| g@));
}

impl View for AlertGroupRecord {
    type V = AlertGroupModel;

    open spec fn view(&self) -> AlertGroupModel {
        group_model(*self)
    }
}

/// The models of a sequence of groups.
pub open spec fn group_models(s: Seq<AlertGroupRecord>) -> Seq<AlertGroupModel> {
    s.map_values(|g: AlertGroupRecord| g@)
}

pub fn clone_user(o: &Option<AlertUserRef>) -> (r: Option<AlertUserRef>)
    ensures
        r == *o,
{
    match o {
        Some(u) => Some(AlertUserRef {
            user_id: u.user_id.clone(),
            display_name: clone_opt_string(&u.display_name),
            username: clone_opt_string(&u.username),
        }),
        None => None,
    }
}

pub fn clone_entity(o: &Option<AlertEntityRef>) -> (r: Option<AlertEntityRef>)
    ensures
        r == *o,
{
    match o {
        Some(v) => Some(AlertEntityRef { id: v.id.clone(), label: v.label.clone() }),
        None => None,
    }
}

pub fn clone_request(o: &Option<AlertRequestRef>) -> (r: Option<AlertRequestRef>)
    ensures
        r == *o,
{
    match o {
        Some(v) => Some(AlertRequestRef {
            id: v.id,
            method: v.method.clone(),
            path: v.path.clone(),
            query: clone_opt_string(&v.query),
        }),
        None => None,
    }
}

pub fn clone_kind(o: &Option<TokenRequestKind>) -> (r: Option<TokenRequestKind>)
    ensures
        r == *o,
{
    match o {
        Some(v) => Some(TokenRequestKind {
            key: v.key.clone(),
            label: v.label.clone(),
            detail: clone_opt_string(&v.detail),
        }),
        None => None,
    }
}

pub fn clone_window(o: &Option<AlertSemanticWindow>) -> (r: Option<AlertSemanticWindow>)
    ensures
        r == *o,
{
    match o {
        Some(v) => Some(AlertSemanticWindow {
            kind: v.kind,
            window_minutes: v.window_minutes,
            window_start: v.window_start,
            window_end: v.window_end,
            window_key: clone_opt_string(&v.window_key),
        }),
        None => None,
    }
}

impl AlertEventRecord {
    /// A copy of this event.
    pub fn duplicate(&self) -> (r: AlertEventRecord)
        ensures
            r == *self,
    {
        AlertEventRecord {
            id: self.id.clone(),
            alert_type: self.alert_type.clone(),
            title: self.title.clone(),
            summary: self.summary.clone(),
            occurred_at: self.occurred_at,
            subject_kind: self.subject_kind.clone(),
            subject_id: self.subject_id.clone(),
            subject_label: self.subject_label.clone(),
            user: clone_user(&self.user),
            token: clone_entity(&self.token),
            key: clone_entity(&self.key),
            request: clone_request(&self.request),
            request_kind: clone_kind(&self.request_kind),
            failure_kind: clone_opt_string(&self.failure_kind),
            result_status: clone_opt_string(&self.result_status),
            error_message: clone_opt_string(&self.error_message),
            reason_code: clone_opt_string(&self.reason_code),
            reason_summary: clone_opt_string(&self.reason_summary),
            reason_detail: clone_opt_string(&self.reason_detail),
            source: AlertSourceRef { kind: self.source.kind.clone(), id: self.source.id.clone() },
            semantic_window: clone_window(&self.semantic_window),
        }
    }
}

} // verus!
