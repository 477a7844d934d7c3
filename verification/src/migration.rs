//! The request-kind canonicalisation migration: its persisted state, who may
//! enter it, and which rows it rewrites.

use vstd::prelude::*;
use vstd::string::*;
use crate::alerts::model::{TokenRequestKind, opt_str};
use crate::num::sat_sub;
use crate::num::saturating_sub_i64;
use crate::text::{
    all_digits, chars_of, int_decimal, lemma_parse_int_decimal, lemma_parse_nat_decimal_u32,
    lemma_split_on_append, lemma_split_on_sep, nat_decimal, parse_i64, parse_i64_chars, parse_u32,
    parse_u32_chars, push_i64_decimal, push_u64_decimal, split_chars, split_on, str_eq,
    string_of_chars, trim, trim_string,
};

verus! {

/// The state of the migration as recorded in the meta table.
#[derive(Clone, Copy, PartialEq, Eq, Structural, Debug)]
pub enum RequestKindCanonicalMigrationState {
    /// Running, last heard of at `heartbeat_at`, owned by `owner_pid` when known.
    Running { heartbeat_at: i64, owner_pid: Option<u32> },
    /// Failed at the given time.
    Failed(i64),
    /// Finished at the given time.
    Done(i64),
}

/// The meta-table text of a state: `running:<ts>[:<pid>]`, `failed:<ts>`
/// or `done:<ts>`.
pub open spec fn meta_value_spec(s: RequestKindCanonicalMigrationState) -> Seq<char> {
    match s {
        RequestKindCanonicalMigrationState::Running { heartbeat_at, owner_pid: Some(pid) } =>
            "running:"@ + int_decimal(heartbeat_at as int) + ":"@ + nat_decimal(pid as nat),
        RequestKindCanonicalMigrationState::Running { heartbeat_at, owner_pid: None } =>
            "running:"@ + int_decimal(heartbeat_at as int),
        RequestKindCanonicalMigrationState::Failed(ts) => "failed:"@ + int_decimal(ts as int),
        RequestKindCanonicalMigrationState::Done(ts) => "done:"@ + int_decimal(ts as int),
    }
}

/// The state a meta-table text records: its `:`-separated pieces are a kind,
/// a time, and for a running migration optionally an owner pid; anything
/// else records nothing.
pub open spec fn parse_state_spec(v: Seq<char>) -> Option<RequestKindCanonicalMigrationState> {
    let parts = split_on(v, ':');
    if parts.len() < 2 {
        None
    } else {
        match parse_i64(parts[1]) {
            None => None,
            Some(ts) => if parts[0] == "running"@ {
                if parts.len() == 2 {
                    Some(RequestKindCanonicalMigrationState::Running { heartbeat_at: ts as i64, owner_pid: None })
                } else if parts.len() == 3 {
                    match parse_u32(parts[2]) {
                        Some(pid) => Some(RequestKindCanonicalMigrationState::Running {
                            heartbeat_at: ts as i64,
                            owner_pid: Some(pid as u32),
                        }),
                        None => None,
                    }
                } else {
                    None
                }
            } else if parts[0] == "failed"@ && parts.len() == 2 {
                Some(RequestKindCanonicalMigrationState::Failed(ts as i64))
            } else if parts[0] == "done"@ && parts.len() == 2 {
                Some(RequestKindCanonicalMigrationState::Done(ts as i64))
            } else {
                None
            },
        }
    }
}

impl RequestKindCanonicalMigrationState {
    /// The meta-table text of this state.
    pub fn as_meta_value(self) -> (r: String)
        ensures
            r@ == meta_value_spec(self),
    {
        match self {
            RequestKindCanonicalMigrationState::Running { heartbeat_at, owner_pid } => {
                let mut r = String::from_str("running:");
                push_i64_decimal(&mut r, heartbeat_at);
                match owner_pid {
                    Some(pid) => {
                        r.append(":");
                        push_u64_decimal(&mut r, pid as u64);
                    }
                    None => {}
                }
                r
            }
            RequestKindCanonicalMigrationState::Failed(ts) => {
                let mut r = String::from_str("failed:");
                push_i64_decimal(&mut r, ts);
                r
            }
            RequestKindCanonicalMigrationState::Done(ts) => {
                let mut r = String::from_str("done:");
                push_i64_decimal(&mut r, ts);
                r
            }
        }
    }
}

/// The pieces of `head ++ ":" ++ x`, for a head free of `:` other than its
/// own pieces.
proof fn lemma_split_word_colon(word: Seq<char>, x: Seq<char>)
    requires
        !word.contains(':'),
        !x.contains(':'),
    ensures
        split_on(word + ":"@ + x, ':') == seq![word, x],
{
    reveal_strlit(":");
    lemma_split_on_append(Seq::empty(), word, ':');
    assert(Seq::<char>::empty() + word =~= word);
    assert(split_on(Seq::<char>::empty(), ':') =~= seq![Seq::<char>::empty()]);
    assert(split_on(word, ':') =~= seq![word]);
    assert(word + ":"@ =~= word.push(':'));
    lemma_split_on_sep(word, ':');
    lemma_split_on_append(word + ":"@, x, ':');
    assert(split_on(word + ":"@ + x, ':') =~= seq![word, x]);
}

/// Reading back the text of a state gives the state.
pub proof fn lemma_meta_value_round_trip(s: RequestKindCanonicalMigrationState)
    ensures
        parse_state_spec(meta_value_spec(s)) == Some(s),
{
    reveal_strlit("running:");
    reveal_strlit("running");
    reveal_strlit("failed:");
    reveal_strlit("failed");
    reveal_strlit("done:");
    reveal_strlit("done");
    reveal_strlit(":");
    match s {
        RequestKindCanonicalMigrationState::Running { heartbeat_at, owner_pid } => {
            let ts = int_decimal(heartbeat_at as int);
            lemma_parse_int_decimal(heartbeat_at as int);
            assert("running:"@ =~= "running"@ + ":"@);
            assert(!"running"@.contains(':'));
            lemma_split_word_colon("running"@, ts);
            assert("running:"@ + ts =~= "running"@ + ":"@ + ts);
            match owner_pid {
                Some(pid) => {
                    let p = nat_decimal(pid as nat);
                    lemma_parse_nat_decimal_u32(pid as nat);
                    let v = "running"@ + ":"@ + ts;
                    assert(v =~= v.drop_last().push(v.last()));
                    assert(v + ":"@ =~= v.push(':'));
                    lemma_split_on_sep(v, ':');
                    lemma_split_on_append(v + ":"@, p, ':');
                    assert(meta_value_spec(s) =~= v + ":"@ + p);
                    assert(split_on(meta_value_spec(s), ':') =~= seq!["running"@, ts, p]);
                }
                None => {
                    assert(split_on(meta_value_spec(s), ':') =~= seq!["running"@, ts]);
                }
            }
        }
        RequestKindCanonicalMigrationState::Failed(t) => {
            let ts = int_decimal(t as int);
            lemma_parse_int_decimal(t as int);
            assert("failed:"@ =~= "failed"@ + ":"@);
            assert(!"failed"@.contains(':'));
            lemma_split_word_colon("failed"@, ts);
            assert("failed:"@ + ts =~= "failed"@ + ":"@ + ts);
            assert("failed"@ != "running"@);
        }
        RequestKindCanonicalMigrationState::Done(t) => {
            let ts = int_decimal(t as int);
            lemma_parse_int_decimal(t as int);
            assert("done:"@ =~= "done"@ + ":"@);
            assert(!"done"@.contains(':'));
            lemma_split_word_colon("done"@, ts);
            assert("done:"@ + ts =~= "done"@ + ":"@ + ts);
            assert("done"@ != "running"@);
            assert("done"@ != "failed"@);
        }
    }
}

/// Where a backfill scans next after a batch whose last row is
/// `batch_max_id`: there for a real run; for a dry run, which writes no
/// cursor, there too when it lies past the cursor the run started from.
pub fn backfill_scan_cursor(dry_run: bool, cursor_before: i64, batch_max_id: i64) -> (r: i64)
    ensures
        r == if !dry_run || batch_max_id > cursor_before { batch_max_id } else { cursor_before },
{
    if !dry_run || batch_max_id > cursor_before { batch_max_id } else { cursor_before }
}

/// The cursor a backfill reports: where it got to, or for a dry run, which
/// moved nothing, the cursor it started from.
pub fn backfill_reported_cursor(dry_run: bool, cursor_before: i64, scanned_to: i64) -> (r: i64)
    ensures
        r == if dry_run { cursor_before } else { scanned_to },
{
    if dry_run { cursor_before } else { scanned_to }
}

/// Only well-formed values record a state: two or three `:`-separated
/// parts, the first `running`, `failed` or `done`, the second a decimal
/// time, and a third part only for `running`, where it is a decimal pid.
pub proof fn lemma_only_well_formed_values_parse(v: Seq<char>)
    ensures
        parse_state_spec(v) is Some ==> ({
            let parts = split_on(v, ':');
            &&& 2 <= parts.len() <= 3
            &&& parts[0] == "running"@ || parts[0] == "failed"@ || parts[0] == "done"@
            &&& parse_i64(parts[1]) is Some
            &&& parts.len() == 3 ==> parts[0] == "running"@ && parse_u32(parts[2]) is Some
        }),
{
}

/// The migration state recorded by a meta-table value, if it records one.
pub fn parse_request_kind_canonical_migration_state(value: Option<String>) -> (r: Option<RequestKindCanonicalMigrationState>)
    ensures
        r == match value {
            Some(v) => parse_state_spec(v@),
            None => None,
        },
{
    let value = match value {
        Some(v) => v,
        None => return None,
    };
    let chars = chars_of(value.as_str());
    let parts = split_chars(&chars, ':');
    let ghost pv = parts@.map_values(|v: Vec<char>| v@);
    assert(pv == split_on(value@, ':'));
    if parts.len() < 2 {
        return None;
    }
    assert(pv[1] == parts@[1]@);
    let ts = match parse_i64_chars(&parts[1], 0, parts[1].len()) {
        Some(t) => t,
        None => {
            assert(parts@[1]@.subrange(0, parts@[1]@.len() as int) =~= parts@[1]@);
            return None;
        }
    };
    assert(parts@[1]@.subrange(0, parts@[1]@.len() as int) =~= parts@[1]@);
    let kind = string_of_chars(&parts[0]);
    assert(kind@ == pv[0]);
    if str_eq(kind.as_str(), "running") {
        if parts.len() == 2 {
            Some(RequestKindCanonicalMigrationState::Running { heartbeat_at: ts, owner_pid: None })
        } else if parts.len() == 3 {
            assert(pv[2] == parts@[2]@);
            assert(parts@[2]@.subrange(0, parts@[2]@.len() as int) =~= parts@[2]@);
            match parse_u32_chars(&parts[2], 0, parts[2].len()) {
                Some(pid) => Some(RequestKindCanonicalMigrationState::Running { heartbeat_at: ts, owner_pid: Some(pid) }),
                None => None,
            }
        } else {
            None
        }
    } else if str_eq(kind.as_str(), "failed") && parts.len() == 2 {
        Some(RequestKindCanonicalMigrationState::Failed(ts))
    } else if str_eq(kind.as_str(), "done") && parts.len() == 2 {
        Some(RequestKindCanonicalMigrationState::Done(ts))
    } else {
        None
    }
}

/// Whether a migration last heard of at `started_at` is still fresh at
/// `now_ts`: less than `stale_secs` have passed.
pub open spec fn is_fresh_spec(now_ts: i64, started_at: i64, stale_secs: i64) -> bool {
    sat_sub(now_ts as int, started_at as int) < stale_secs
}

/// Whether a migration last heard of at `started_at` is still fresh.
pub fn request_kind_canonical_migration_is_fresh(now_ts: i64, started_at: i64, stale_secs: i64) -> (r: bool)
    ensures
        r == is_fresh_spec(now_ts, started_at, stale_secs),
{
    saturating_sub_i64(now_ts, started_at) < stale_secs
}

/// The heartbeat of a running migration that keeps others out: a fresh one
/// whose owner is alive, or a fresh one with no known owner.
pub open spec fn blocks_reentry_spec(
    now_ts: i64,
    state: RequestKindCanonicalMigrationState,
    stale_secs: i64,
    owner_is_live: bool,
) -> Option<i64> {
    match state {
        RequestKindCanonicalMigrationState::Running { heartbeat_at, owner_pid: Some(_) } =>
            if is_fresh_spec(now_ts, heartbeat_at, stale_secs) && owner_is_live { Some(heartbeat_at) } else { None },
        RequestKindCanonicalMigrationState::Running { heartbeat_at, owner_pid: None } =>
            if is_fresh_spec(now_ts, heartbeat_at, stale_secs) { Some(heartbeat_at) } else { None },
        _ => None,
    }
}

/// Whether a recorded state keeps another process from entering the
/// migration, and from when. `owner_is_live` says whether the state's owner
/// process (if it names one) is still running.
pub fn request_kind_canonical_migration_state_blocks_reentry(
    now_ts: i64,
    state: RequestKindCanonicalMigrationState,
    stale_secs: i64,
    owner_is_live: bool,
) -> (r: Option<i64>)
    ensures
        r == blocks_reentry_spec(now_ts, state, stale_secs, owner_is_live),
{
    match state {
        RequestKindCanonicalMigrationState::Running { heartbeat_at, owner_pid: Some(_) } => {
            if request_kind_canonical_migration_is_fresh(now_ts, heartbeat_at, stale_secs) && owner_is_live {
                Some(heartbeat_at)
            } else {
                None
            }
        }
        RequestKindCanonicalMigrationState::Running { heartbeat_at, owner_pid: None } => {
            if request_kind_canonical_migration_is_fresh(now_ts, heartbeat_at, stale_secs) {
                Some(heartbeat_at)
            } else {
                None
            }
        }
        _ => None,
    }
}

/// Only a running migration can keep others out, and only with the time it
/// was last heard of.
pub proof fn lemma_only_running_blocks(now_ts: i64, state: RequestKindCanonicalMigrationState, stale_secs: i64, owner_is_live: bool)
    ensures
        blocks_reentry_spec(now_ts, state, stale_secs, owner_is_live) matches Some(h) ==>
            state matches RequestKindCanonicalMigrationState::Running { heartbeat_at, .. } && h == heartbeat_at,
{
}

/// A stored request-kind field, trimmed, with blank read as missing.
pub open spec fn normalized_field(v: Option<Seq<char>>) -> Option<Seq<char>> {
    match v {
        Some(s) => if trim(s).len() > 0 { Some(trim(s)) } else { None },
        None => None,
    }
}

/// A stored request-kind field, trimmed, with blank read as missing.
pub fn normalize_request_kind_backfill_field(value: Option<String>) -> (r: Option<String>)
    ensures
        opt_str(r) == normalized_field(opt_str(value)),
{
    match value {
        Some(v) => {
            let t = trim_string(v.as_str());
            if t.unicode_len() > 0 { Some(t) } else { None }
        }
        None => None,
    }
}

/// A request log row the migration looks at.
pub struct RequestKindBackfillRequestLogRow {
    pub id: i64,
    pub path: String,
    pub request_body: Option<Vec<u8>>,
    pub request_kind_key: Option<String>,
    pub request_kind_label: Option<String>,
    pub request_kind_detail: Option<String>,
}

/// A token log row the migration looks at.
pub struct RequestKindBackfillTokenLogRow {
    pub id: i64,
    pub method: String,
    pub path: String,
    pub query: Option<String>,
    pub request_kind_key: Option<String>,
    pub request_kind_label: Option<String>,
    pub request_kind_detail: Option<String>,
}

/// The request kind the migration writes to one row.
pub struct RequestKindCanonicalUpdate {
    pub id: i64,
    pub request_kind_key: String,
    pub request_kind_label: String,
    pub request_kind_detail: Option<String>,
}

/// The update a row needs to carry `kind`: none when its normalised key,
/// label and detail already equal the kind's (the kind's detail normalised).
pub open spec fn backfill_update_spec(
    key: Option<Seq<char>>,
    label: Option<Seq<char>>,
    detail: Option<Seq<char>>,
    kind_key: Seq<char>,
    kind_label: Seq<char>,
    kind_detail: Option<Seq<char>>,
) -> Option<(Seq<char>, Seq<char>, Option<Seq<char>>)> {
    let current_key = normalized_field(key);
    let current_label = normalized_field(label);
    let current_detail = normalized_field(detail);
    let desired_detail = normalized_field(kind_detail);
    if current_key == Some(kind_key) && current_label == Some(kind_label) && current_detail == desired_detail {
        None
    } else {
        Some((kind_key, kind_label, desired_detail))
    }
}

/// Whether an optional update carries the given id and values.
pub open spec fn update_matches(r: Option<RequestKindCanonicalUpdate>, id: i64, want: Option<(Seq<char>, Seq<char>, Option<Seq<char>>)>) -> bool {
    match want {
        None => r is None,
        Some(w) => r matches Some(u) && u.id == id && u.request_kind_key@ == w.0
            && u.request_kind_label@ == w.1 && opt_str(u.request_kind_detail) == w.2,
    }
}

fn opt_eq(a: &Option<String>, b: &str) -> (r: bool)
    ensures
        r == (opt_str(*a) == Some(b@)),
{
    match a {
        Some(s) => str_eq(s.as_str(), b),
        None => false,
    }
}

fn opt_opt_eq(a: &Option<String>, b: &Option<String>) -> (r: bool)
    ensures
        r == (opt_str(*a) == opt_str(*b)),
{
    match (a, b) {
        (Some(x), Some(y)) => str_eq(x.as_str(), y.as_str()),
        (None, None) => true,
        _ => false,
    }
}

fn backfill_update(
    id: i64,
    key: Option<String>,
    label: Option<String>,
    detail: Option<String>,
    kind: TokenRequestKind,
) -> (r: Option<RequestKindCanonicalUpdate>)
    ensures
        update_matches(r, id, backfill_update_spec(opt_str(key), opt_str(label), opt_str(detail), kind.key@, kind.label@, opt_str(kind.detail))),
{
    let current_key = normalize_request_kind_backfill_field(key);
    let current_label = normalize_request_kind_backfill_field(label);
    let current_detail = normalize_request_kind_backfill_field(detail);
    let desired_detail = normalize_request_kind_backfill_field(kind.detail);
    if opt_eq(&current_key, kind.key.as_str())
        && opt_eq(&current_label, kind.label.as_str())
        && opt_opt_eq(&current_detail, &desired_detail)
    {
        return None;
    }
    Some(RequestKindCanonicalUpdate {
        id,
        request_kind_key: kind.key,
        request_kind_label: kind.label,
        request_kind_detail: desired_detail,
    })
}

/// The update a request log row needs, given `kind`: the canonical kind the
/// request-kind catalogue gives for the row's path, body and normalised
/// stored kind.
pub fn build_request_kind_backfill_request_log_update(
    row: RequestKindBackfillRequestLogRow,
    kind: TokenRequestKind,
) -> (r: Option<RequestKindCanonicalUpdate>)
    ensures
        update_matches(r, row.id, backfill_update_spec(opt_str(row.request_kind_key), opt_str(row.request_kind_label),
            opt_str(row.request_kind_detail), kind.key@, kind.label@, opt_str(kind.detail))),
{
    backfill_update(row.id, row.request_kind_key, row.request_kind_label, row.request_kind_detail, kind)
}

/// The update a token log row needs, given `kind`: the finalised kind the
/// request-kind catalogue gives for the row's method, path, query and
/// normalised stored kind.
pub fn build_request_kind_backfill_token_log_update(
    row: RequestKindBackfillTokenLogRow,
    kind: TokenRequestKind,
) -> (r: Option<RequestKindCanonicalUpdate>)
    ensures
        update_matches(r, row.id, backfill_update_spec(opt_str(row.request_kind_key), opt_str(row.request_kind_label),
            opt_str(row.request_kind_detail), kind.key@, kind.label@, opt_str(kind.detail))),
{
    backfill_update(row.id, row.request_kind_key, row.request_kind_label, row.request_kind_detail, kind)
}

/// A row already carrying a kind, key, label and detail alike, needs no
/// update.
pub proof fn lemma_canonical_row_needs_no_update(key: Seq<char>, label: Seq<char>, detail: Option<Seq<char>>)
    requires
        trim(key) == key,
        key.len() > 0,
        trim(label) == label,
        label.len() > 0,
    ensures
        backfill_update_spec(Some(key), Some(label), detail, key, label, detail) is None,
{
}

/// The stored kind fields of a row the migration looks at: its id, key,
/// label and detail.
pub type BackfillFields = (i64, Option<Seq<char>>, Option<Seq<char>>, Option<Seq<char>>);

/// The stored kind fields of a request log row.
pub open spec fn request_log_fields(r: RequestKindBackfillRequestLogRow) -> BackfillFields {
    (r.id, opt_str(r.request_kind_key), opt_str(r.request_kind_label), opt_str(r.request_kind_detail))
}

/// The stored kind fields of a token log row.
pub open spec fn token_log_fields(r: RequestKindBackfillTokenLogRow) -> BackfillFields {
    (r.id, opt_str(r.request_kind_key), opt_str(r.request_kind_label), opt_str(r.request_kind_detail))
}

/// An update as plain values: id, key, label and detail.
pub open spec fn update_model(u: RequestKindCanonicalUpdate) -> (i64, Seq<char>, Seq<char>, Option<Seq<char>>) {
    (u.id, u.request_kind_key@, u.request_kind_label@, opt_str(u.request_kind_detail))
}

/// The updates a batch needs, in row order: each row paired with the kind
/// the catalogue gives it, rows already carrying their kind left out.
pub open spec fn planned_updates(rows: Seq<BackfillFields>, kinds: Seq<TokenRequestKind>) -> Seq<(i64, Seq<char>, Seq<char>, Option<Seq<char>>)>
    decreases rows.len(),
{
    if rows.len() == 0 {
        Seq::empty()
    } else {
        let prev = planned_updates(rows.drop_last(), kinds);
        let r = rows.last();
        let k = kinds[rows.len() - 1];
        match backfill_update_spec(r.1, r.2, r.3, k.key@, k.label@, opt_str(k.detail)) {
            Some(w) => prev.push((r.0, w.0, w.1, w.2)),
            None => prev,
        }
    }
}

/// What one batch of the migration writes: the row updates and the cursor
/// it moves to (the last row's id, or the old cursor for an empty batch).
pub struct BackfillBatchPlan {
    pub updates: Vec<RequestKindCanonicalUpdate>,
    pub batch_max_id: i64,
}

/// What one batch of request log rows needs, given the kind the catalogue
/// gives each row (`kinds[i]` for `rows[i]`).
pub fn plan_request_log_backfill_batch(
    rows: &Vec<RequestKindBackfillRequestLogRow>,
    kinds: &Vec<TokenRequestKind>,
    cursor_after: i64,
) -> (r: BackfillBatchPlan)
    requires
        rows.len() == kinds.len(),
    ensures
        r.updates@.map_values(|u: RequestKindCanonicalUpdate| update_model(u))
            == planned_updates(rows@.map_values(|x: RequestKindBackfillRequestLogRow| request_log_fields(x)), kinds@),
        r.batch_max_id == if rows@.len() == 0 { cursor_after } else { rows@.last().id },
{
    let ghost fields = rows@.map_values(|x: RequestKindBackfillRequestLogRow| request_log_fields(x));
    let batch_max_id = if rows.len() == 0 { cursor_after } else { rows[rows.len() - 1].id };
    let mut updates: Vec<RequestKindCanonicalUpdate> = Vec::new();
    let mut i: usize = 0;
    while i < rows.len()
        invariant
            i <= rows.len(),
            rows.len() == kinds.len(),
            fields == rows@.map_values(|x: RequestKindBackfillRequestLogRow| request_log_fields(x)),
            updates@.map_values(|u: RequestKindCanonicalUpdate| update_model(u)) == planned_updates(fields.take(i as int), kinds@),
        decreases rows.len() - i,
    {
        let ghost before = updates@.map_values(|u: RequestKindCanonicalUpdate| update_model(u));
        proof {
            assert(fields.take(i + 1).drop_last() =~= fields.take(i as int));
            assert(fields.take(i + 1).last() == fields[i as int]);
        }
        let r = &rows[i];
        let k = &kinds[i];
        let kind = TokenRequestKind { key: k.key.clone(), label: k.label.clone(), detail: crate::text::clone_opt_string(&k.detail) };
        match backfill_update(
            r.id,
            crate::text::clone_opt_string(&r.request_kind_key),
            crate::text::clone_opt_string(&r.request_kind_label),
            crate::text::clone_opt_string(&r.request_kind_detail),
            kind,
        ) {
            Some(u) => {
                updates.push(u);
                assert(updates@.map_values(|u: RequestKindCanonicalUpdate| update_model(u)) =~= before.push(update_model(u)));
            }
            None => {}
        }
        i = i + 1;
    }
    assert(fields.take(rows.len() as int) =~= fields);
    BackfillBatchPlan { updates, batch_max_id }
}

/// What one batch of token log rows needs, given the kind the catalogue
/// gives each row (`kinds[i]` for `rows[i]`).
pub fn plan_token_log_backfill_batch(
    rows: &Vec<RequestKindBackfillTokenLogRow>,
    kinds: &Vec<TokenRequestKind>,
    cursor_after: i64,
) -> (r: BackfillBatchPlan)
    requires
        rows.len() == kinds.len(),
    ensures
        r.updates@.map_values(|u: RequestKindCanonicalUpdate| update_model(u))
            == planned_updates(rows@.map_values(|x: RequestKindBackfillTokenLogRow| token_log_fields(x)), kinds@),
        r.batch_max_id == if rows@.len() == 0 { cursor_after } else { rows@.last().id },
{
    let ghost fields = rows@.map_values(|x: RequestKindBackfillTokenLogRow| token_log_fields(x));
    let batch_max_id = if rows.len() == 0 { cursor_after } else { rows[rows.len() - 1].id };
    let mut updates: Vec<RequestKindCanonicalUpdate> = Vec::new();
    let mut i: usize = 0;
    while i < rows.len()
        invariant
            i <= rows.len(),
            rows.len() == kinds.len(),
            fields == rows@.map_values(|x: RequestKindBackfillTokenLogRow| token_log_fields(x)),
            updates@.map_values(|u: RequestKindCanonicalUpdate| update_model(u)) == planned_updates(fields.take(i as int), kinds@),
        decreases rows.len() - i,
    {
        let ghost before = updates@.map_values(|u: RequestKindCanonicalUpdate| update_model(u));
        proof {
            assert(fields.take(i + 1).drop_last() =~= fields.take(i as int));
            assert(fields.take(i + 1).last() == fields[i as int]);
        }
        let r = &rows[i];
        let k = &kinds[i];
        let kind = TokenRequestKind { key: k.key.clone(), label: k.label.clone(), detail: crate::text::clone_opt_string(&k.detail) };
        match backfill_update(
            r.id,
            crate::text::clone_opt_string(&r.request_kind_key),
            crate::text::clone_opt_string(&r.request_kind_label),
            crate::text::clone_opt_string(&r.request_kind_detail),
            kind,
        ) {
            Some(u) => {
                updates.push(u);
                assert(updates@.map_values(|u: RequestKindCanonicalUpdate| update_model(u)) =~= before.push(update_model(u)));
            }
            None => {}
        }
        i = i + 1;
    }
    assert(fields.take(rows.len() as int) =~= fields);
    BackfillBatchPlan { updates, batch_max_id }
}

/// The user-id backfill of one batch: the cursor it moves to (the last row's
/// id, never behind the old cursor) and the rows that get a user, in order.
pub open spec fn user_id_writes(rows: Seq<(i64, Option<String>)>) -> Seq<(i64, Seq<char>)>
    decreases rows.len(),
{
    if rows.len() == 0 {
        Seq::empty()
    } else {
        let prev = user_id_writes(rows.drop_last());
        match rows.last().1 {
            Some(u) => prev.push((rows.last().0, u@)),
            None => prev,
        }
    }
}

/// The user-id backfill of one batch of `(request log id, user id)` rows.
pub fn plan_request_user_id_backfill(rows: &Vec<(i64, Option<String>)>, cursor_before: i64) -> (r: (i64, Vec<(i64, String)>))
    ensures
        r.0 == if rows@.len() == 0 { cursor_before } else if rows@.last().0 >= cursor_before { rows@.last().0 } else { cursor_before },
        r.1@.map_values(|w: (i64, String)| (w.0, w.1@)) == user_id_writes(rows@),
{
    let last = if rows.len() == 0 { cursor_before } else { rows[rows.len() - 1].0 };
    let batch_max_id = if last >= cursor_before { last } else { cursor_before };
    let mut writes: Vec<(i64, String)> = Vec::new();
    let mut i: usize = 0;
    while i < rows.len()
        invariant
            i <= rows.len(),
            writes@.map_values(|w: (i64, String)| (w.0, w.1@)) == user_id_writes(rows@.take(i as int)),
        decreases rows.len() - i,
    {
        let ghost before = writes@.map_values(|w: (i64, String)| (w.0, w.1@));
        proof {
            assert(rows@.take(i + 1).drop_last() =~= rows@.take(i as int));
            assert(rows@.take(i + 1).last() == rows@[i as int]);
        }
        match &rows[i].1 {
            Some(u) => {
                writes.push((rows[i].0, u.clone()));
                assert(writes@.map_values(|w: (i64, String)| (w.0, w.1@)) =~= before.push((rows@[i as int].0, u@)));
            }
            None => {}
        }
        i = i + 1;
    }
    assert(rows@.take(rows.len() as int) =~= rows@);
    (batch_max_id, writes)
}

/// A migration heard of `d` seconds ago (when that difference fits `i64`) is
/// fresh exactly when `d` is below `stale_secs`; so a heartbeat that is no
/// older than a fresher one is fresh too.
pub proof fn lemma_freshness_is_age_below_limit(now_ts: i64, started_at: i64, later: i64, stale_secs: i64)
    requires
        i64::MIN <= now_ts - started_at <= i64::MAX,
        started_at <= later <= now_ts,
    ensures
        is_fresh_spec(now_ts, started_at, stale_secs) <==> now_ts - started_at < stale_secs,
        is_fresh_spec(now_ts, started_at, stale_secs) ==> is_fresh_spec(now_ts, later, stale_secs),
{
}

/// A recorded state keeps others out exactly when it is a running migration
/// heard of recently enough, whose owner, when it names one, is still alive;
/// what it reports then is that heartbeat.
pub proof fn lemma_blocks_reentry_exactly(now_ts: i64, state: RequestKindCanonicalMigrationState, stale_secs: i64, owner_is_live: bool)
    ensures
        blocks_reentry_spec(now_ts, state, stale_secs, owner_is_live) is Some <==> (state matches RequestKindCanonicalMigrationState::Running { heartbeat_at, owner_pid }
            && sat_sub(now_ts as int, heartbeat_at as int) < stale_secs && (owner_pid is None || owner_is_live)),
        (state matches RequestKindCanonicalMigrationState::Running { heartbeat_at, owner_pid: Some(p) } && !owner_is_live)
            ==> blocks_reentry_spec(now_ts, state, stale_secs, owner_is_live) is None,
{
}

} // verus!
