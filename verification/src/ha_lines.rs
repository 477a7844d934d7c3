//! Reading the lines of an HA baseline or event stream: the JSON of a line
//! turned into what the apply session steps on, and a replicated row's
//! payload with the columns that must not be replicated cleared.

use vstd::prelude::*;
use vstd::string::*;
use crate::error::ProxyError;
use crate::ha_apply::{fails_with, HaBaselineLine, HaEventsLine};
use crate::ha_counters::HaJsonScalar;
use crate::ha_json::{
    HaJsonValue, HaJsonValueModel, debug_opt_str, json_as_i64, json_as_str, json_entries_view, json_get,
    json_i64_field, json_lookup, json_str_field, json_value_as_i64, opt_json_view, parse_json_object,
    rust_debug_opt_str, serde_json_object,
};
use crate::text::{concat2, i64_to_string, int_decimal, parse_i64, str_eq};

verus! {

/// The model of a baseline line.
pub enum HaBaselineLineModel {
    Start { high_watermark: Option<i64> },
    Resource { resource: Option<Seq<char>>, has_data: bool },
    End { high_watermark: Option<i64> },
    Unsupported { kind_debug: Seq<char> },
}

/// The model of a baseline line value.
pub open spec fn baseline_line_view(l: HaBaselineLine) -> HaBaselineLineModel {
    match l {
        HaBaselineLine::Start { high_watermark } => HaBaselineLineModel::Start { high_watermark },
        HaBaselineLine::Resource { resource, has_data } => HaBaselineLineModel::Resource {
            resource: match resource { Some(s) => Some(s@), None => None },
            has_data,
        },
        HaBaselineLine::End { high_watermark } => HaBaselineLineModel::End { high_watermark },
        HaBaselineLine::Unsupported { kind_debug } => HaBaselineLineModel::Unsupported { kind_debug: kind_debug@ },
    }
}

/// What a baseline line object says: its `kind` (`baseline_start` and
/// `baseline_end` with their integer `highWatermark`, `resource` with its
/// string `resource` and whether it has `data`; any other kind by the debug
/// text of the kind when it is a string, `None` otherwise), together with
/// its `data`.
pub open spec fn baseline_line_spec(e: Seq<(Seq<char>, HaJsonValueModel)>) -> (HaBaselineLineModel, Option<HaJsonValueModel>) {
    let kind = json_as_str(json_lookup(e, "kind"@));
    let hw = json_as_i64(json_lookup(e, "highWatermark"@));
    let data = json_lookup(e, "data"@);
    let line = if kind == Some("baseline_start"@) {
        HaBaselineLineModel::Start { high_watermark: hw }
    } else if kind == Some("baseline_end"@) {
        HaBaselineLineModel::End { high_watermark: hw }
    } else if kind == Some("resource"@) {
        HaBaselineLineModel::Resource { resource: json_as_str(json_lookup(e, "resource"@)), has_data: data is Some }
    } else {
        HaBaselineLineModel::Unsupported { kind_debug: rust_debug_opt_str(kind) }
    };
    (line, data)
}

/// The entries of the JSON text of a line: those of the object it holds,
/// none when it holds another value.
pub open spec fn line_entries(r: Option<Seq<(Seq<char>, HaJsonValueModel)>>) -> Seq<(Seq<char>, HaJsonValueModel)> {
    match r {
        Some(e) => e,
        None => Seq::empty(),
    }
}

fn kind_is(kind: &Option<String>, k: &str) -> (b: bool)
    ensures
        b == (opt_text(*kind) == Some(k@)),
{
    match kind {
        Some(s) => str_eq(s.as_str(), k),
        None => false,
    }
}

/// Reads what a baseline line object says.
pub fn ha_baseline_line_from_entries(e: &Vec<(String, HaJsonValue)>) -> (r: (HaBaselineLine, Option<HaJsonValue>))
    ensures
        (baseline_line_view(r.0), opt_json_view(r.1)) == baseline_line_spec(json_entries_view(e@)),
{
    let kind = json_str_field(e, "kind");
    let hw = json_i64_field(e, "highWatermark");
    let data = json_get(e, "data");
    proof {
        reveal_strlit("baseline_start");
        reveal_strlit("baseline_end");
        reveal_strlit("resource");
    }
    let line = if kind_is(&kind, "baseline_start") {
        HaBaselineLine::Start { high_watermark: hw }
    } else if kind_is(&kind, "baseline_end") {
        HaBaselineLine::End { high_watermark: hw }
    } else if kind_is(&kind, "resource") {
        HaBaselineLine::Resource { resource: json_str_field(e, "resource"), has_data: data.is_some() }
    } else {
        let k: Option<&str> = match &kind { Some(s) => Some(s.as_str()), None => None };
        HaBaselineLine::Unsupported { kind_debug: debug_opt_str(k) }
    };
    (line, data)
}

/// Reads one baseline line: its JSON, then what it says; text that is not
/// JSON is refused with the parser's message.
pub fn read_ha_baseline_line(line: &str) -> (r: Result<(HaBaselineLine, Option<HaJsonValue>), ProxyError>)
    ensures
        match serde_json_object(line@) {
            Err(m) => fails_with(r, "invalid HA baseline NDJSON: "@ + m),
            Ok(o) => r matches Ok(x) && (baseline_line_view(x.0), opt_json_view(x.1)) == baseline_line_spec(line_entries(o)),
        },
{
    match parse_json_object(line) {
        Err(m) => Err(ProxyError::Other(concat2("invalid HA baseline NDJSON: ", m.as_str()))),
        Ok(Some(e)) => Ok(ha_baseline_line_from_entries(&e)),
        Ok(None) => {
            let e: Vec<(String, HaJsonValue)> = Vec::new();
            proof { assert(json_entries_view(e@) =~= Seq::<(Seq<char>, HaJsonValueModel)>::empty()); }
            Ok(ha_baseline_line_from_entries(&e))
        }
    }
}

/// The model of an event-stream line.
pub enum HaEventsLineModel {
    Start,
    Event {
        has_event: bool,
        resource: Option<Seq<char>>,
        op: Option<Seq<char>>,
        resource_id: Option<Seq<char>>,
        seq: Option<i64>,
    },
    End { last_seq: Option<i64> },
    Unsupported { kind_debug: Seq<char> },
}

/// The model of an optional string.
pub open spec fn opt_text(o: Option<String>) -> Option<Seq<char>> {
    match o {
        Some(s) => Some(s@),
        None => None,
    }
}

/// The model of an event-stream line value.
pub open spec fn events_line_view(l: HaEventsLine) -> HaEventsLineModel {
    match l {
        HaEventsLine::Start => HaEventsLineModel::Start,
        HaEventsLine::Event { has_event, resource, op, resource_id, seq } => HaEventsLineModel::Event {
            has_event,
            resource: opt_text(resource),
            op: opt_text(op),
            resource_id: opt_text(resource_id),
            seq,
        },
        HaEventsLine::End { last_seq } => HaEventsLineModel::End { last_seq },
        HaEventsLine::Unsupported { kind_debug } => HaEventsLineModel::Unsupported { kind_debug: kind_debug@ },
    }
}

/// The entries of a line's `event`: those of the object it holds (read from
/// its JSON text), none when it holds another value or nothing.
pub open spec fn event_entries(event: Option<HaJsonValueModel>) -> Seq<(Seq<char>, HaJsonValueModel)> {
    match event {
        Some(HaJsonValueModel::Object(t)) => match serde_json_object(t) {
            Ok(o) => line_entries(o),
            Err(_) => Seq::empty(),
        },
        _ => Seq::empty(),
    }
}

/// What an event-stream line object says: `events_start`; `events_end`
/// with its integer `lastSeq`; `event`, with whether it has an `event` and
/// that event's string `resource`, `op` and `resourceId` and integer `seq`;
/// any other kind by its debug text, as for baselines. Together with the
/// event's `payload`.
pub open spec fn events_line_spec(e: Seq<(Seq<char>, HaJsonValueModel)>) -> (HaEventsLineModel, Option<HaJsonValueModel>) {
    let kind = json_as_str(json_lookup(e, "kind"@));
    let event = json_lookup(e, "event"@);
    let ev = event_entries(event);
    let line = if kind == Some("events_start"@) {
        HaEventsLineModel::Start
    } else if kind == Some("events_end"@) {
        HaEventsLineModel::End { last_seq: json_as_i64(json_lookup(e, "lastSeq"@)) }
    } else if kind == Some("event"@) {
        HaEventsLineModel::Event {
            has_event: event is Some,
            resource: json_as_str(json_lookup(ev, "resource"@)),
            op: json_as_str(json_lookup(ev, "op"@)),
            resource_id: json_as_str(json_lookup(ev, "resourceId"@)),
            seq: json_as_i64(json_lookup(ev, "seq"@)),
        }
    } else {
        HaEventsLineModel::Unsupported { kind_debug: rust_debug_opt_str(kind) }
    };
    (line, json_lookup(ev, "payload"@))
}

fn event_entries_exec(event: &Option<HaJsonValue>) -> (r: Vec<(String, HaJsonValue)>)
    ensures
        json_entries_view(r@) == event_entries(opt_json_view(*event)),
{
    let empty: Vec<(String, HaJsonValue)> = Vec::new();
    proof { assert(json_entries_view(empty@) =~= Seq::<(Seq<char>, HaJsonValueModel)>::empty()); }
    match event {
        Some(HaJsonValue::Object(t)) => match parse_json_object(t.as_str()) {
            Ok(Some(e)) => e,
            _ => empty,
        },
        _ => empty,
    }
}

/// Reads what an event-stream line object says.
pub fn ha_events_line_from_entries(e: &Vec<(String, HaJsonValue)>) -> (r: (HaEventsLine, Option<HaJsonValue>))
    ensures
        (events_line_view(r.0), opt_json_view(r.1)) == events_line_spec(json_entries_view(e@)),
{
    let kind = json_str_field(e, "kind");
    let event = json_get(e, "event");
    let ev = event_entries_exec(&event);
    proof {
        reveal_strlit("events_start");
        reveal_strlit("events_end");
        reveal_strlit("event");
    }
    let line = if kind_is(&kind, "events_start") {
        HaEventsLine::Start
    } else if kind_is(&kind, "events_end") {
        HaEventsLine::End { last_seq: json_i64_field(e, "lastSeq") }
    } else if kind_is(&kind, "event") {
        HaEventsLine::Event {
            has_event: event.is_some(),
            resource: json_str_field(&ev, "resource"),
            op: json_str_field(&ev, "op"),
            resource_id: json_str_field(&ev, "resourceId"),
            seq: json_i64_field(&ev, "seq"),
        }
    } else {
        let k: Option<&str> = match &kind { Some(s) => Some(s.as_str()), None => None };
        HaEventsLine::Unsupported { kind_debug: debug_opt_str(k) }
    };
    (line, json_get(&ev, "payload"))
}

/// Reads one event-stream line: its JSON, then what it says; text that is
/// not JSON is refused with the parser's message.
pub fn read_ha_events_line(line: &str) -> (r: Result<(HaEventsLine, Option<HaJsonValue>), ProxyError>)
    ensures
        match serde_json_object(line@) {
            Err(m) => fails_with(r, "invalid HA events NDJSON: "@ + m),
            Ok(o) => r matches Ok(x) && (events_line_view(x.0), opt_json_view(x.1)) == events_line_spec(line_entries(o)),
        },
{
    match parse_json_object(line) {
        Err(m) => Err(ProxyError::Other(concat2("invalid HA events NDJSON: ", m.as_str()))),
        Ok(Some(e)) => Ok(ha_events_line_from_entries(&e)),
        Ok(None) => {
            let e: Vec<(String, HaJsonValue)> = Vec::new();
            proof { assert(json_entries_view(e@) =~= Seq::<(Seq<char>, HaJsonValueModel)>::empty()); }
            Ok(ha_events_line_from_entries(&e))
        }
    }
}

// ---------------------------------------------------------------------------
// Payloads
// ---------------------------------------------------------------------------

/// A replicated row's payload: the entries of an object, or another value.
pub enum HaPayload {
    Object(Vec<(String, HaJsonValue)>),
    Value(HaJsonValue),
}

/// The model of a payload.
pub enum HaPayloadModel {
    Object(Seq<(Seq<char>, HaJsonValueModel)>),
    Value(HaJsonValueModel),
}

/// The model of a payload value.
pub open spec fn payload_view(p: HaPayload) -> HaPayloadModel {
    match p {
        HaPayload::Object(e) => HaPayloadModel::Object(json_entries_view(e@)),
        HaPayload::Value(v) => HaPayloadModel::Value(v@),
    }
}

/// Whether a column of a resource is cleared before a peer's row is
/// applied: the request-log references of maintenance records and of
/// transient backoffs.
pub open spec fn cleared_column(resource: Seq<char>, column: Seq<char>) -> bool {
    ||| resource == "api_key_maintenance_records"@ && (column == "request_log_id"@ || column == "auth_token_log_id"@)
    ||| resource == "api_key_transient_backoffs"@ && column == "source_request_log_id"@
}

/// A row's entries with the cleared columns it has set to null.
pub open spec fn sanitized_spec(resource: Seq<char>, e: Seq<(Seq<char>, HaJsonValueModel)>) -> Seq<(Seq<char>, HaJsonValueModel)> {
    Seq::new(e.len(), |i: int| if cleared_column(resource, e[i].0) { (e[i].0, HaJsonValueModel::Null) } else { e[i] })
}

fn is_cleared_column(resource: &str, column: &str) -> (r: bool)
    ensures
        r == cleared_column(resource@, column@),
{
    (str_eq(resource, "api_key_maintenance_records") && (str_eq(column, "request_log_id") || str_eq(column, "auth_token_log_id")))
        || (str_eq(resource, "api_key_transient_backoffs") && str_eq(column, "source_request_log_id"))
}

/// Sets the cleared columns of a peer's row to null.
pub fn sanitize_ha_resource_entries(resource: &str, entries: Vec<(String, HaJsonValue)>) -> (r: Vec<(String, HaJsonValue)>)
    ensures
        json_entries_view(r@) == sanitized_spec(resource@, json_entries_view(entries@)),
{
    let ghost want = sanitized_spec(resource@, json_entries_view(entries@));
    let total = entries.len();
    let ghost n = entries@.len();
    let mut out: Vec<(String, HaJsonValue)> = Vec::new();
    let mut rest = entries;
    let ghost orig = rest@;
    assert(n == total);
    let mut i: usize = 0;
    while rest.len() > 0
        invariant
            i + rest@.len() == n,
            orig.len() == n,
            n <= usize::MAX,
            want == sanitized_spec(resource@, json_entries_view(orig)),
            forall|j: int| 0 <= j < rest@.len() ==> #[trigger] rest@[j] == orig[i + j],
            out@.len() == i,
            forall|j: int| 0 <= j < i ==> (#[trigger] out@[j]).0@ == want[j].0 && out@[j].1@ == want[j].1,
        decreases rest@.len(),
    {
        let ghost old_rest = rest@;
        let (key, value) = rest.remove(0);
        proof {
            assert(old_rest[0] == orig[i as int]);
            assert forall|j: int| 0 <= j < rest@.len() implies #[trigger] rest@[j] == orig[i + 1 + j] by {
                assert(rest@[j] == old_rest[j + 1]);
            }
        }
        let cleared = is_cleared_column(resource, key.as_str());
        let v = if cleared { HaJsonValue::Null } else { value };
        out.push((key, v));
        i = i + 1;
    }
    proof {
        assert(json_entries_view(out@) =~= want);
    }
    out
}

/// The payload a line carries: nothing is null; an object has its entries
/// read (from its JSON text) and its cleared columns set to null; any other
/// value is kept.
pub open spec fn resource_payload_spec(resource: Seq<char>, data: Option<HaJsonValueModel>) -> HaPayloadModel {
    match data {
        None => HaPayloadModel::Value(HaJsonValueModel::Null),
        Some(HaJsonValueModel::Object(t)) => match serde_json_object(t) {
            Ok(Some(e)) => HaPayloadModel::Object(sanitized_spec(resource, e)),
            _ => HaPayloadModel::Value(HaJsonValueModel::Object(t)),
        },
        Some(v) => HaPayloadModel::Value(v),
    }
}

/// The payload a line carries for `resource`, with its cleared columns
/// set to null.
pub fn ha_resource_payload(resource: &str, data: Option<HaJsonValue>) -> (r: HaPayload)
    ensures
        payload_view(r) == resource_payload_spec(resource@, opt_json_view(data)),
{
    match data {
        None => HaPayload::Value(HaJsonValue::Null),
        Some(HaJsonValue::Object(t)) => match parse_json_object(t.as_str()) {
            Ok(Some(e)) => HaPayload::Object(sanitize_ha_resource_entries(resource, e)),
            _ => HaPayload::Value(HaJsonValue::Object(t)),
        },
        Some(v) => HaPayload::Value(v),
    }
}

/// Whether `s` is how counters read the value `v`: a string as a string, a
/// number whose text is a decimal integer in range as that integer, and
/// anything else as other.
pub open spec fn scalar_of(s: HaJsonScalar, v: HaJsonValueModel) -> bool {
    match v {
        HaJsonValueModel::Str(t) => s matches HaJsonScalar::Str(x) && x@ == t,
        HaJsonValueModel::Number(t) => match parse_i64(t) {
            Some(x) => s == HaJsonScalar::I64(x as i64),
            None => s is Other,
        },
        _ => s is Other,
    }
}

/// A payload's entries as counters read them; none for a payload that is
/// not an object.
pub fn ha_payload_scalars(p: &HaPayload) -> (r: Option<Vec<(String, HaJsonScalar)>>)
    ensures
        match p {
            HaPayload::Object(e) => r matches Some(s) && s@.len() == e@.len() && forall|i: int| 0 <= i < e@.len() ==>
                (#[trigger] s@[i]).0@ == e@[i].0@ && scalar_of(s@[i].1, e@[i].1@),
            HaPayload::Value(_) => r is None,
        },
{
    match p {
        HaPayload::Object(e) => {
            let mut s: Vec<(String, HaJsonScalar)> = Vec::new();
            let mut i: usize = 0;
            while i < e.len()
                invariant
                    i <= e.len(),
                    s@.len() == i,
                    forall|j: int| 0 <= j < i ==> (#[trigger] s@[j]).0@ == e@[j].0@ && scalar_of(s@[j].1, e@[j].1@),
                decreases e.len() - i,
            {
                let scalar = match &e[i].1 {
                    HaJsonValue::Str(t) => HaJsonScalar::Str(t.clone()),
                    HaJsonValue::Number(_) => {
                        let v = Some(match &e[i].1 { HaJsonValue::Number(t) => HaJsonValue::Number(t.clone()), _ => HaJsonValue::Null });
                        match json_value_as_i64(&v) {
                            Some(x) => HaJsonScalar::I64(x),
                            None => HaJsonScalar::Other,
                        }
                    }
                    _ => HaJsonScalar::Other,
                };
                s.push((e[i].0.clone(), scalar));
                i = i + 1;
            }
            Some(s)
        }
        HaPayload::Value(_) => None,
    }
}


/// A row of a baseline export, read from the JSON text SQLite built for it
/// and with its cleared columns set to null. Text that is not JSON is
/// refused with the parser's message; JSON that is not an object (which
/// `json_object` never builds) is refused too.
pub fn ha_export_row(table: &str, raw_row: &str) -> (r: Result<HaPayload, ProxyError>)
    ensures
        match serde_json_object(raw_row@) {
            Err(m) => fails_with(r, "invalid HA baseline row: "@ + m),
            Ok(Some(e)) => r matches Ok(p) && payload_view(p) == HaPayloadModel::Object(sanitized_spec(table@, e)),
            Ok(None) => fails_with(r, "invalid HA baseline row: not a JSON object"@),
        },
{
    match parse_json_object(raw_row) {
        Err(m) => Err(ProxyError::Other(concat2("invalid HA baseline row: ", m.as_str()))),
        Ok(Some(e)) => Ok(HaPayload::Object(sanitize_ha_resource_entries(table, e))),
        Ok(None) => Err(ProxyError::Other(String::from_str("invalid HA baseline row: not a JSON object"))),
    }
}


/// Whether an object's entries have `key`.
pub open spec fn has_key(e: Seq<(Seq<char>, HaJsonValueModel)>, key: Seq<char>) -> bool {
    exists|i: int| 0 <= i < e.len() && (#[trigger] e[i]).0 == key
}

/// A peer's billing-ledger row moved onto a local token-log id: its
/// `auth_token_log_id` becomes `local_id` (added when missing; a payload
/// that is not an object becomes an object holding only that), and a
/// `request_log_id` it has becomes null, as the peer's request logs are not
/// replicated.
pub open spec fn ledger_row_spec(p: HaPayloadModel, local_id: i64) -> Seq<(Seq<char>, HaJsonValueModel)> {
    let base = match p {
        HaPayloadModel::Object(e) => e,
        HaPayloadModel::Value(_) => Seq::empty(),
    };
    let id = HaJsonValueModel::Number(int_decimal(local_id as int));
    let mapped = Seq::new(base.len(), |i: int|
        if base[i].0 == "auth_token_log_id"@ { (base[i].0, id) }
        else if base[i].0 == "request_log_id"@ { (base[i].0, HaJsonValueModel::Null) }
        else { base[i] });
    if has_key(base, "auth_token_log_id"@) { mapped } else { mapped.push(("auth_token_log_id"@, id)) }
}

/// Moves a peer's billing-ledger row onto a local token-log id.
pub fn ha_billing_ledger_row_with_local_id(p: HaPayload, local_id: i64) -> (r: Vec<(String, HaJsonValue)>)
    ensures
        json_entries_view(r@) == ledger_row_spec(payload_view(p), local_id),
{
    let ghost pv = payload_view(p);
    let base: Vec<(String, HaJsonValue)> = match p {
        HaPayload::Object(e) => e,
        HaPayload::Value(_) => Vec::new(),
    };
    let ghost b = json_entries_view(base@);
    proof {
        assert(b == match pv { HaPayloadModel::Object(e) => e, HaPayloadModel::Value(_) => Seq::<(Seq<char>, HaJsonValueModel)>::empty() });
    }
    let mut out: Vec<(String, HaJsonValue)> = Vec::new();
    let mut found = false;
    let mut i: usize = 0;
    while i < base.len()
        invariant
            i <= base.len(),
            b == json_entries_view(base@),
            out@.len() == i,
            found == exists|j: int| 0 <= j < i && (#[trigger] b[j]).0 == "auth_token_log_id"@,
            forall|j: int| 0 <= j < i ==> (#[trigger] json_entries_view(out@)[j]) == (
                if b[j].0 == "auth_token_log_id"@ { (b[j].0, HaJsonValueModel::Number(int_decimal(local_id as int))) }
                else if b[j].0 == "request_log_id"@ { (b[j].0, HaJsonValueModel::Null) }
                else { b[j] }),
        decreases base.len() - i,
    {
        let key = &base[i].0;
        proof { assert(b[i as int] == (base@[i as int].0@, base@[i as int].1@)); }
        let value = if str_eq(key.as_str(), "auth_token_log_id") {
            found = true;
            HaJsonValue::Number(i64_to_string(local_id))
        } else if str_eq(key.as_str(), "request_log_id") {
            HaJsonValue::Null
        } else {
            clone_entry_value(&base[i])
        };
        let ghost old_out = out@;
        out.push((key.clone(), value));
        proof {
            assert forall|j: int| 0 <= j < i + 1 implies (#[trigger] json_entries_view(out@)[j]) == (
                if b[j].0 == "auth_token_log_id"@ { (b[j].0, HaJsonValueModel::Number(int_decimal(local_id as int))) }
                else if b[j].0 == "request_log_id"@ { (b[j].0, HaJsonValueModel::Null) }
                else { b[j] }) by {
                if j < i {
                    assert(json_entries_view(out@)[j] == json_entries_view(old_out)[j]);
                }
            }
        }
        i = i + 1;
    }
    let ghost mapped = json_entries_view(out@);
    if !found {
        out.push((String::from_str("auth_token_log_id"), HaJsonValue::Number(i64_to_string(local_id))));
        proof {
            reveal_strlit("auth_token_log_id");
            assert(json_entries_view(out@) =~= mapped.push(("auth_token_log_id"@, HaJsonValueModel::Number(int_decimal(local_id as int)))));
        }
    }
    proof {
        assert(mapped =~= Seq::new(b.len(), |i: int|
            if b[i].0 == "auth_token_log_id"@ { (b[i].0, HaJsonValueModel::Number(int_decimal(local_id as int))) }
            else if b[i].0 == "request_log_id"@ { (b[i].0, HaJsonValueModel::Null) }
            else { b[i] }));
        assert(found == has_key(b, "auth_token_log_id"@));
    }
    out
}

fn clone_entry_value(entry: &(String, HaJsonValue)) -> (r: HaJsonValue)
    ensures
        r@ == entry.1@,
{
    match &entry.1 {
        HaJsonValue::Null => HaJsonValue::Null,
        HaJsonValue::Bool(b) => HaJsonValue::Bool(*b),
        HaJsonValue::Number(t) => HaJsonValue::Number(t.clone()),
        HaJsonValue::Str(s) => HaJsonValue::Str(s.clone()),
        HaJsonValue::Array(t) => HaJsonValue::Array(t.clone()),
        HaJsonValue::Object(t) => HaJsonValue::Object(t.clone()),
    }
}

} // verus!
