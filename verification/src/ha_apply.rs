//! Applying an HA baseline or event stream line by line: what each line
//! means for the session's progress, and what the caller must write.

use vstd::prelude::*;
use crate::error::ProxyError;
use crate::ha::{channel_str, ensure_ha_resource_whitelisted, resource_allowed_spec, HaSyncChannel};
use crate::text::{concat2, owned, str_eq};

verus! {

/// How far an apply session has come: whether its start and end markers
/// were read, the highest sequence it covers, and the rows and payload
/// bytes it took in.
pub struct HaApplyProgress {
    pub saw_start: bool,
    pub saw_end: bool,
    pub high_watermark: i64,
    pub row_count: usize,
    pub payload_bytes: usize,
}

impl HaApplyProgress {
    /// A session that has read nothing yet.
    pub fn new() -> (r: HaApplyProgress)
        ensures
            !r.saw_start && !r.saw_end,
            r.high_watermark == 0,
            r.row_count == 0,
            r.payload_bytes == 0,
    {
        HaApplyProgress { saw_start: false, saw_end: false, high_watermark: 0, row_count: 0, payload_bytes: 0 }
    }

    /// Counts `n` more payload bytes.
    pub fn note_bytes(&mut self, n: usize)
        requires
            old(self).payload_bytes + n <= usize::MAX,
        ensures
            final(self).payload_bytes == old(self).payload_bytes + n,
            final(self).saw_start == old(self).saw_start,
            final(self).saw_end == old(self).saw_end,
            final(self).high_watermark == old(self).high_watermark,
            final(self).row_count == old(self).row_count,
    {
        self.payload_bytes = self.payload_bytes + n;
    }

    /// Counts one more applied row.
    pub fn note_row(&mut self)
        requires
            old(self).row_count < usize::MAX,
        ensures
            final(self).row_count == old(self).row_count + 1,
            final(self).saw_start == old(self).saw_start,
            final(self).saw_end == old(self).saw_end,
            final(self).high_watermark == old(self).high_watermark,
            final(self).payload_bytes == old(self).payload_bytes,
    {
        self.row_count = self.row_count + 1;
    }
}

/// One line of a baseline stream, as far as the session reads it.
pub enum HaBaselineLine {
    /// `baseline_start`, with its `highWatermark` when that is an integer.
    Start { high_watermark: Option<i64> },
    /// `resource`, with its resource name when that is a string, and whether it has `data`.
    Resource { resource: Option<String>, has_data: bool },
    /// `baseline_end`, with its `highWatermark` when that is an integer.
    End { high_watermark: Option<i64> },
    /// Any other kind, written as its debug text.
    Unsupported { kind_debug: String },
}

/// `a` or, when it is `None`, `b`.
pub open spec fn or_else(a: Option<i64>, b: i64) -> i64 {
    match a {
        Some(v) => v,
        None => b,
    }
}

/// The larger of two integers.
pub open spec fn max64(a: i64, b: i64) -> i64 {
    if a >= b { a } else { b }
}

/// Whether `r` is an error carrying the message `m`.
pub open spec fn fails_with<T>(r: Result<T, ProxyError>, m: Seq<char>) -> bool {
    r matches Err(ProxyError::Other(e)) && e@ == m
}

/// The message refusing a resource a channel does not replicate.
pub open spec fn not_whitelisted_msg(channel: HaSyncChannel, resource: Seq<char>) -> Seq<char> {
    "HA "@ + channel_str(channel) + " resource is not whitelisted: "@ + resource
}

/// Reads one baseline line. A start marker sets the watermark to its value
/// (zero when absent, never below zero); an end marker raises it to its
/// value when that is higher; a resource line, when it names a resource
/// the channel replicates and carries data, asks the caller to apply that
/// resource's row. Only the markers change the progress.
pub fn ha_baseline_line_step(progress: &mut HaApplyProgress, channel: HaSyncChannel, line: HaBaselineLine) -> (r: Result<Option<String>, ProxyError>)
    ensures
        final(progress).row_count == old(progress).row_count,
        final(progress).payload_bytes == old(progress).payload_bytes,
        match line {
            HaBaselineLine::Start { high_watermark } => r matches Ok(None)
                && final(progress).saw_start && final(progress).saw_end == old(progress).saw_end
                && final(progress).high_watermark == max64(or_else(high_watermark, 0), 0),
            HaBaselineLine::End { high_watermark } => r matches Ok(None)
                && final(progress).saw_end && final(progress).saw_start == old(progress).saw_start
                && final(progress).high_watermark == max64(or_else(high_watermark, old(progress).high_watermark), old(progress).high_watermark),
            HaBaselineLine::Resource { resource, has_data } => *final(progress) == *old(progress) && match resource {
                None => fails_with(r, "HA baseline resource is missing"@),
                Some(name) => if !resource_allowed_spec(channel, name@) {
                    fails_with(r, not_whitelisted_msg(channel, name@))
                } else if !has_data {
                    fails_with(r, "HA baseline resource data is missing"@)
                } else {
                    r matches Ok(Some(x)) && x@ == name@
                },
            },
            HaBaselineLine::Unsupported { kind_debug } => *final(progress) == *old(progress)
                && fails_with(r, "unsupported HA baseline record kind: "@ + kind_debug@),
        },
{
    match line {
        HaBaselineLine::Start { high_watermark } => {
            progress.saw_start = true;
            let v = match high_watermark {
                Some(v) => v,
                None => 0,
            };
            progress.high_watermark = if v >= 0 { v } else { 0 };
            Ok(None)
        },
        HaBaselineLine::Resource { resource, has_data } => {
            let name = match resource {
                Some(name) => name,
                None => return Err(ProxyError::Other(owned("HA baseline resource is missing"))),
            };
            match ensure_ha_resource_whitelisted(channel, name.as_str()) {
                Ok(()) => {},
                Err(e) => return Err(e),
            }
            if !has_data {
                return Err(ProxyError::Other(owned("HA baseline resource data is missing")));
            }
            Ok(Some(name))
        },
        HaBaselineLine::End { high_watermark } => {
            progress.saw_end = true;
            let current = progress.high_watermark;
            let v = match high_watermark {
                Some(v) => v,
                None => current,
            };
            progress.high_watermark = if v >= current { v } else { current };
            Ok(None)
        },
        HaBaselineLine::Unsupported { kind_debug } => {
            Err(ProxyError::Other(concat2("unsupported HA baseline record kind: ", kind_debug.as_str())))
        },
    }
}

/// One line of an event stream, as far as the session reads it.
pub enum HaEventsLine {
    /// `events_start`.
    Start,
    /// `event`: whether the wrapper holds an event, and the event's
    /// resource, operation and resource id when those are strings, and its
    /// sequence number when that is an integer.
    Event {
        has_event: bool,
        resource: Option<String>,
        op: Option<String>,
        resource_id: Option<String>,
        seq: Option<i64>,
    },
    /// `events_end`, with its `lastSeq` when that is an integer.
    End { last_seq: Option<i64> },
    /// Any other kind, written as its debug text.
    Unsupported { kind_debug: String },
}

/// An event the caller must apply.
pub struct HaEventApply {
    pub resource: String,
    /// The operation, `upsert` when the event names none.
    pub op: String,
    /// The resource id, empty when the event names none.
    pub resource_id: String,
}

/// Reads one event-stream line. A start marker is noted; an end marker, and
/// each event, raise the watermark to their sequence number when that is
/// higher; an event on a resource the channel replicates asks the caller
/// to apply it. The watermark never falls.
pub fn ha_events_line_step(progress: &mut HaApplyProgress, channel: HaSyncChannel, line: HaEventsLine) -> (r: Result<Option<HaEventApply>, ProxyError>)
    ensures
        final(progress).row_count == old(progress).row_count,
        final(progress).payload_bytes == old(progress).payload_bytes,
        final(progress).high_watermark >= old(progress).high_watermark,
        match line {
            HaEventsLine::Start => r matches Ok(None) && final(progress).saw_start
                && final(progress).saw_end == old(progress).saw_end
                && final(progress).high_watermark == old(progress).high_watermark,
            HaEventsLine::End { last_seq } => r matches Ok(None)
                && final(progress).saw_end && final(progress).saw_start == old(progress).saw_start
                && final(progress).high_watermark == max64(or_else(last_seq, old(progress).high_watermark), old(progress).high_watermark),
            HaEventsLine::Event { has_event, resource, op, resource_id, seq } => {
                &&& final(progress).saw_start == old(progress).saw_start
                &&& final(progress).saw_end == old(progress).saw_end
                &&& if !has_event {
                    fails_with(r, "HA event wrapper is missing event"@) && *final(progress) == *old(progress)
                } else {
                    match resource {
                        None => fails_with(r, "HA event resource is missing"@) && *final(progress) == *old(progress),
                        Some(name) => if !resource_allowed_spec(channel, name@) {
                            fails_with(r, not_whitelisted_msg(channel, name@)) && *final(progress) == *old(progress)
                        } else {
                            &&& final(progress).high_watermark == max64(or_else(seq, old(progress).high_watermark), old(progress).high_watermark)
                            &&& r matches Ok(Some(x))
                            &&& x.resource@ == name@
                            &&& x.op@ == (match op { Some(o) => o@, None => "upsert"@ })
                            &&& x.resource_id@ == (match resource_id { Some(i) => i@, None => Seq::<char>::empty() })
                        },
                    }
                }
            },
            HaEventsLine::Unsupported { kind_debug } => *final(progress) == *old(progress)
                && fails_with(r, "unsupported HA events record kind: "@ + kind_debug@),
        },
{
    match line {
        HaEventsLine::Start => {
            progress.saw_start = true;
            Ok(None)
        },
        HaEventsLine::Event { has_event, resource, op, resource_id, seq } => {
            if !has_event {
                return Err(ProxyError::Other(owned("HA event wrapper is missing event")));
            }
            let name = match resource {
                Some(name) => name,
                None => return Err(ProxyError::Other(owned("HA event resource is missing"))),
            };
            match ensure_ha_resource_whitelisted(channel, name.as_str()) {
                Ok(()) => {},
                Err(e) => return Err(e),
            }
            let op = match op {
                Some(o) => o,
                None => owned("upsert"),
            };
            let resource_id = match resource_id {
                Some(i) => i,
                None => {
                    proof { reveal_strlit(""); }
                    let e = owned("");
                    assert(e@ =~= Seq::<char>::empty());
                    e
                },
            };
            let current = progress.high_watermark;
            let v = match seq {
                Some(v) => v,
                None => current,
            };
            progress.high_watermark = if v >= current { v } else { current };
            Ok(Some(HaEventApply { resource: name, op, resource_id }))
        },
        HaEventsLine::End { last_seq } => {
            progress.saw_end = true;
            let current = progress.high_watermark;
            let v = match last_seq {
                Some(v) => v,
                None => current,
            };
            progress.high_watermark = if v >= current { v } else { current };
            Ok(None)
        },
        HaEventsLine::Unsupported { kind_debug } => {
            Err(ProxyError::Other(concat2("unsupported HA events record kind: ", kind_debug.as_str())))
        },
    }
}

/// What an event asks of the local table, once no counter merge took it.
#[derive(PartialEq, Eq, Structural, Clone, Copy, Debug)]
pub enum HaEventRowAction {
    Delete,
    Upsert,
}

/// The row action of an event operation: `delete` or `upsert`; any other
/// operation is refused.
pub fn ha_event_row_action(op: &str) -> (r: Result<HaEventRowAction, ProxyError>)
    ensures
        op@ == "delete"@ ==> r matches Ok(HaEventRowAction::Delete),
        op@ == "upsert"@ ==> r matches Ok(HaEventRowAction::Upsert),
        op@ != "delete"@ && op@ != "upsert"@ ==> fails_with(r, "unsupported HA event operation: "@ + op@),
{
    proof {
        reveal_strlit("delete");
        reveal_strlit("upsert");
        assert("delete"@[0] != "upsert"@[0]);
    }
    if str_eq(op, "delete") {
        Ok(HaEventRowAction::Delete)
    } else if str_eq(op, "upsert") {
        Ok(HaEventRowAction::Upsert)
    } else {
        Err(ProxyError::Other(concat2("unsupported HA event operation: ", op)))
    }
}

/// A session may be committed only once both markers were read; `baseline`
/// tells which stream the message names.
pub fn ha_apply_finish_check(progress: &HaApplyProgress, baseline: bool) -> (r: Result<(), ProxyError>)
    ensures
        r is Ok <==> progress.saw_start && progress.saw_end,
        !(progress.saw_start && progress.saw_end) ==> fails_with(r, if baseline {
            "HA baseline must include baseline_start and baseline_end"@
        } else {
            "HA events must include events_start and events_end"@
        }),
{
    if progress.saw_start && progress.saw_end {
        Ok(())
    } else if baseline {
        Err(ProxyError::Other(owned("HA baseline must include baseline_start and baseline_end")))
    } else {
        Err(ProxyError::Other(owned("HA events must include events_start and events_end")))
    }
}

/// The columns of a resource's rows that are cleared before a peer's row is
/// applied: the request-log references of maintenance records and of
/// transient backoffs, which point at rows the peer does not replicate.
pub fn ha_resource_cleared_columns(resource: &str) -> (r: Vec<&'static str>)
    ensures
        resource@ == "api_key_maintenance_records"@ ==> r@.len() == 2 && r@[0]@ == "request_log_id"@ && r@[1]@ == "auth_token_log_id"@,
        resource@ == "api_key_transient_backoffs"@ ==> r@.len() == 1 && r@[0]@ == "source_request_log_id"@,
        resource@ != "api_key_maintenance_records"@ && resource@ != "api_key_transient_backoffs"@ ==> r@.len() == 0,
{
    proof {
        reveal_strlit("api_key_maintenance_records");
        reveal_strlit("api_key_transient_backoffs");
        assert("api_key_maintenance_records"@[8] != "api_key_transient_backoffs"@[8]);
    }
    if str_eq(resource, "api_key_maintenance_records") {
        vec!["request_log_id", "auth_token_log_id"]
    } else if str_eq(resource, "api_key_transient_backoffs") {
        let mut v: Vec<&'static str> = Vec::new();
        v.push("source_request_log_id");
        v
    } else {
        Vec::new()
    }
}

} // verus!
