//! Runtime counters imported from an HA peer: reading a counter row, and
//! merging it into the local counters through a per-peer shadow value so
//! that the same peer value is never counted twice.

use vstd::prelude::*;
use crate::error::ProxyError;
use crate::ha::HaSyncChannel;
use crate::num::{max_i, sat_sub, saturating_sub_i64};
use crate::text::{
    cat, chars_of, concat_all, i64_to_string, int_decimal, parse_i64, parse_i64_chars, str_eq, trim,
    trim_string,
};

verus! {

/// A first-level JSON value of a replicated row, as far as counters read it.
pub enum HaJsonScalar {
    /// A string.
    Str(String),
    /// A number that fits `i64`.
    I64(i64),
    /// A number that fits `u64` only.
    U64(u64),
    /// Anything else (`null`, a boolean, a fraction, an array or an object).
    Other,
}

/// The value under `key` in a JSON object given as its entries.
pub open spec fn json_get(o: Seq<(String, HaJsonScalar)>, key: Seq<char>) -> Option<HaJsonScalar>
    decreases o.len(),
{
    if o.len() == 0 {
        None
    } else if o[0].0@ == key {
        Some(o[0].1)
    } else {
        json_get(o.drop_first(), key)
    }
}

/// The message for a missing counter field.
pub open spec fn missing_msg(field: Seq<char>, table: Seq<char>) -> Seq<char> {
    "HA counter payload missing "@ + field + " for "@ + table
}

/// The message for a counter field that is not an integer.
pub open spec fn invalid_msg(field: Seq<char>, table: Seq<char>) -> Seq<char> {
    "HA counter payload has invalid "@ + field + " for "@ + table
}

/// The message for a negative counter.
pub open spec fn negative_msg(table: Seq<char>) -> Seq<char> {
    "HA counter payload has negative count for "@ + table
}

/// A text field: the trimmed string, when the field is a string with
/// something besides whitespace; else the field counts as missing.
pub open spec fn str_field_result(o: Seq<(String, HaJsonScalar)>, table: Seq<char>, field: Seq<char>) -> Result<Seq<char>, Seq<char>> {
    match json_get(o, field) {
        Some(HaJsonScalar::Str(s)) => if trim(s@).len() > 0 { Ok(trim(s@)) } else { Err(missing_msg(field, table)) },
        _ => Err(missing_msg(field, table)),
    }
}

/// An integer field: a number within `i64`, or a string that parses as one
/// once trimmed; missing when absent, invalid otherwise.
pub open spec fn i64_field_result(o: Seq<(String, HaJsonScalar)>, table: Seq<char>, field: Seq<char>) -> Result<int, Seq<char>> {
    match json_get(o, field) {
        None => Err(missing_msg(field, table)),
        Some(HaJsonScalar::I64(v)) => Ok(v as int),
        Some(HaJsonScalar::U64(v)) => if v <= i64::MAX { Ok(v as int) } else { Err(invalid_msg(field, table)) },
        Some(HaJsonScalar::Str(s)) => match parse_i64(trim(s@)) {
            Some(v) => Ok(v),
            None => Err(invalid_msg(field, table)),
        },
        Some(HaJsonScalar::Other) => Err(invalid_msg(field, table)),
    }
}

/// Which local counter an imported row feeds.
pub enum HaRuntimeCounterFields {
    AuthTokenQuota { token_id: String, month_start: i64 },
    AccountMonthlyQuota { user_id: String, month_start: i64 },
    TokenUsageBucket { token_id: String, bucket_start: i64, granularity: String },
    AccountUsageBucket { user_id: String, bucket_start: i64, granularity: String },
}

/// A counter read from a peer's row: the row it is shadowed under
/// (resource id and scope), its value, and the local counter it feeds.
pub struct HaRuntimeCounterImport {
    pub resource_id: String,
    pub counter_scope: String,
    pub counter_value: i64,
    pub fields: HaRuntimeCounterFields,
}

/// The model of the local counter an import feeds.
pub enum CounterFieldsModel {
    AuthTokenQuota { token_id: Seq<char>, month_start: i64 },
    AccountMonthlyQuota { user_id: Seq<char>, month_start: i64 },
    TokenUsageBucket { token_id: Seq<char>, bucket_start: i64, granularity: Seq<char> },
    AccountUsageBucket { user_id: Seq<char>, bucket_start: i64, granularity: Seq<char> },
}

/// The model of an imported counter.
pub struct CounterImportModel {
    pub resource_id: Seq<char>,
    pub counter_scope: Seq<char>,
    pub counter_value: i64,
    pub fields: CounterFieldsModel,
}

impl View for HaRuntimeCounterImport {
    type V = CounterImportModel;

    open spec fn view(&self) -> CounterImportModel {
        CounterImportModel {
            resource_id: self.resource_id@,
            counter_scope: self.counter_scope@,
            counter_value: self.counter_value,
            fields: match self.fields {
                HaRuntimeCounterFields::AuthTokenQuota { token_id, month_start } =>
                    CounterFieldsModel::AuthTokenQuota { token_id: token_id@, month_start },
                HaRuntimeCounterFields::AccountMonthlyQuota { user_id, month_start } =>
                    CounterFieldsModel::AccountMonthlyQuota { user_id: user_id@, month_start },
                HaRuntimeCounterFields::TokenUsageBucket { token_id, bucket_start, granularity } =>
                    CounterFieldsModel::TokenUsageBucket { token_id: token_id@, bucket_start, granularity: granularity@ },
                HaRuntimeCounterFields::AccountUsageBucket { user_id, bucket_start, granularity } =>
                    CounterFieldsModel::AccountUsageBucket { user_id: user_id@, bucket_start, granularity: granularity@ },
            },
        }
    }
}

/// A monthly quota row: its id field, `month_start` and `month_count`.
pub open spec fn monthly_import_spec(o: Seq<(String, HaJsonScalar)>, table: Seq<char>, id_field: Seq<char>, account: bool) -> Result<Option<CounterImportModel>, Seq<char>> {
    match str_field_result(o, table, id_field) {
        Err(e) => Err(e),
        Ok(id) => match i64_field_result(o, table, "month_start"@) {
            Err(e) => Err(e),
            Ok(ms) => match i64_field_result(o, table, "month_count"@) {
                Err(e) => Err(e),
                Ok(v) => if v < 0 {
                    Err(negative_msg(table))
                } else {
                    Ok(Some(CounterImportModel {
                        resource_id: id,
                        counter_scope: int_decimal(ms),
                        counter_value: v as i64,
                        fields: if account {
                            CounterFieldsModel::AccountMonthlyQuota { user_id: id, month_start: ms as i64 }
                        } else {
                            CounterFieldsModel::AuthTokenQuota { token_id: id, month_start: ms as i64 }
                        },
                    }))
                },
            },
        },
    }
}

/// A usage bucket row: its id field, `bucket_start`, `granularity` and
/// `count`, shadowed under `granularity:bucket_start`.
pub open spec fn bucket_import_spec(o: Seq<(String, HaJsonScalar)>, table: Seq<char>, id_field: Seq<char>, account: bool) -> Result<Option<CounterImportModel>, Seq<char>> {
    match str_field_result(o, table, id_field) {
        Err(e) => Err(e),
        Ok(id) => match i64_field_result(o, table, "bucket_start"@) {
            Err(e) => Err(e),
            Ok(bs) => match str_field_result(o, table, "granularity"@) {
                Err(e) => Err(e),
                Ok(g) => match i64_field_result(o, table, "count"@) {
                    Err(e) => Err(e),
                    Ok(v) => if v < 0 {
                        Err(negative_msg(table))
                    } else {
                        Ok(Some(CounterImportModel {
                            resource_id: id,
                            counter_scope: g + ":"@ + int_decimal(bs),
                            counter_value: v as i64,
                            fields: if account {
                                CounterFieldsModel::AccountUsageBucket { user_id: id, bucket_start: bs as i64, granularity: g }
                            } else {
                                CounterFieldsModel::TokenUsageBucket { token_id: id, bucket_start: bs as i64, granularity: g }
                            },
                        }))
                    },
                },
            },
        },
    }
}

/// The entries of a row, when the row is a JSON object.
pub open spec fn row_entries(row: Option<Vec<(String, HaJsonScalar)>>) -> Option<Seq<(String, HaJsonScalar)>> {
    match row {
        Some(v) => Some(v@),
        None => None,
    }
}

/// The counter a replicated row carries: none when the row is not an
/// object or its table holds no counter; an error naming the first field
/// that is missing or invalid, or a negative count.
pub open spec fn counter_import_spec(table: Seq<char>, row: Option<Seq<(String, HaJsonScalar)>>) -> Result<Option<CounterImportModel>, Seq<char>> {
    match row {
        None => Ok(None),
        Some(o) => if table == "auth_token_quota"@ {
            monthly_import_spec(o, table, "token_id"@, false)
        } else if table == "account_monthly_quota"@ {
            monthly_import_spec(o, table, "user_id"@, true)
        } else if table == "token_usage_buckets"@ {
            bucket_import_spec(o, table, "token_id"@, false)
        } else if table == "account_usage_buckets"@ {
            bucket_import_spec(o, table, "user_id"@, true)
        } else {
            Ok(None)
        },
    }
}

/// Whether `r` is the text `spec` describes, an error carrying its message.
pub open spec fn string_result_is(r: Result<String, ProxyError>, spec: Result<Seq<char>, Seq<char>>) -> bool {
    match spec {
        Ok(m) => r matches Ok(x) && x@ == m,
        Err(msg) => r matches Err(ProxyError::Other(e)) && e@ == msg,
    }
}

/// Whether `r` is the integer `spec` describes, an error carrying its message.
pub open spec fn int_result_is(r: Result<i64, ProxyError>, spec: Result<int, Seq<char>>) -> bool {
    match spec {
        Ok(m) => r matches Ok(x) && x as int == m,
        Err(msg) => r matches Err(ProxyError::Other(e)) && e@ == msg,
    }
}

/// Whether `r` is the import `spec` describes, an error carrying its message.
pub open spec fn import_result_is(r: Result<Option<HaRuntimeCounterImport>, ProxyError>, spec: Result<Option<CounterImportModel>, Seq<char>>) -> bool {
    match spec {
        Ok(None) => r matches Ok(None),
        Ok(Some(m)) => r matches Ok(Some(x)) && x@ == m,
        Err(msg) => r matches Err(ProxyError::Other(e)) && e@ == msg,
    }
}

fn json_find(o: &Vec<(String, HaJsonScalar)>, key: &str) -> (r: Option<usize>)
    ensures
        match r {
            Some(i) => i < o@.len() && json_get(o@, key@) == Some(o@[i as int].1),
            None => json_get(o@, key@) is None,
        },
{
    let mut i: usize = 0;
    proof { assert(o@.subrange(0, o@.len() as int) =~= o@); }
    while i < o.len()
        invariant
            i <= o@.len(),
            json_get(o@, key@) == json_get(o@.subrange(i as int, o@.len() as int), key@),
        decreases o.len() - i,
    {
        let ghost rest = o@.subrange(i as int, o@.len() as int);
        proof {
            assert(rest[0] == o@[i as int]);
            assert(rest.drop_first() =~= o@.subrange(i + 1, o@.len() as int));
        }
        if str_eq(o[i].0.as_str(), key) {
            return Some(i);
        }
        i = i + 1;
    }
    proof { assert(o@.subrange(i as int, o@.len() as int).len() == 0); }
    None
}

fn missing_error(field: &str, table: &str) -> (r: ProxyError)
    ensures
        r matches ProxyError::Other(m) && m@ == missing_msg(field@, table@),
{
    let m = cat(&vec!["HA counter payload missing ", field, " for ", table]);
    proof { reveal_with_fuel(concat_all, 5); }
    ProxyError::Other(m)
}

fn invalid_error(field: &str, table: &str) -> (r: ProxyError)
    ensures
        r matches ProxyError::Other(m) && m@ == invalid_msg(field@, table@),
{
    let m = cat(&vec!["HA counter payload has invalid ", field, " for ", table]);
    proof { reveal_with_fuel(concat_all, 5); }
    ProxyError::Other(m)
}

/// Reads a text field of a counter row (`ha_json_string_field`).
pub fn ha_json_string_field(o: &Vec<(String, HaJsonScalar)>, table: &str, field: &str) -> (r: Result<String, ProxyError>)
    ensures
        string_result_is(r, str_field_result(o@, table@, field@)),
{
    match json_find(o, field) {
        Some(i) => match &o[i].1 {
            HaJsonScalar::Str(s) => {
                let t = trim_string(s.as_str());
                if t.as_str().unicode_len() > 0 {
                    Ok(t)
                } else {
                    Err(missing_error(field, table))
                }
            },
            _ => Err(missing_error(field, table)),
        },
        None => Err(missing_error(field, table)),
    }
}

/// Reads an integer field of a counter row (`ha_json_i64_field`).
pub fn ha_json_i64_field(o: &Vec<(String, HaJsonScalar)>, table: &str, field: &str) -> (r: Result<i64, ProxyError>)
    ensures
        int_result_is(r, i64_field_result(o@, table@, field@)),
{
    match json_find(o, field) {
        Some(i) => match &o[i].1 {
            HaJsonScalar::I64(v) => Ok(*v),
            HaJsonScalar::U64(v) => {
                if *v <= 9223372036854775807u64 {
                    Ok(*v as i64)
                } else {
                    Err(invalid_error(field, table))
                }
            },
            HaJsonScalar::Str(s) => {
                let t = trim_string(s.as_str());
                let c = chars_of(t.as_str());
                proof { assert(c@.subrange(0, c@.len() as int) =~= c@); }
                match parse_i64_chars(&c, 0, c.len()) {
                    Some(v) => Ok(v),
                    None => Err(invalid_error(field, table)),
                }
            },
            HaJsonScalar::Other => Err(invalid_error(field, table)),
        },
        None => Err(missing_error(field, table)),
    }
}

fn negative_error(table: &str) -> (r: ProxyError)
    ensures
        r matches ProxyError::Other(m) && m@ == negative_msg(table@),
{
    let m = cat(&vec!["HA counter payload has negative count for ", table]);
    proof { reveal_with_fuel(concat_all, 3); }
    ProxyError::Other(m)
}

fn monthly_import(o: &Vec<(String, HaJsonScalar)>, table: &str, id_field: &str, account: bool) -> (r: Result<Option<HaRuntimeCounterImport>, ProxyError>)
    ensures
        import_result_is(r, monthly_import_spec(o@, table@, id_field@, account)),
{
    let id = match ha_json_string_field(o, table, id_field) {
        Ok(s) => s,
        Err(e) => return Err(e),
    };
    let month_start = match ha_json_i64_field(o, table, "month_start") {
        Ok(v) => v,
        Err(e) => return Err(e),
    };
    let value = match ha_json_i64_field(o, table, "month_count") {
        Ok(v) => v,
        Err(e) => return Err(e),
    };
    if value < 0 {
        return Err(negative_error(table));
    }
    let fields = if account {
        HaRuntimeCounterFields::AccountMonthlyQuota { user_id: id.clone(), month_start }
    } else {
        HaRuntimeCounterFields::AuthTokenQuota { token_id: id.clone(), month_start }
    };
    Ok(Some(HaRuntimeCounterImport {
        resource_id: id,
        counter_scope: i64_to_string(month_start),
        counter_value: value,
        fields,
    }))
}

fn bucket_import(o: &Vec<(String, HaJsonScalar)>, table: &str, id_field: &str, account: bool) -> (r: Result<Option<HaRuntimeCounterImport>, ProxyError>)
    ensures
        import_result_is(r, bucket_import_spec(o@, table@, id_field@, account)),
{
    let id = match ha_json_string_field(o, table, id_field) {
        Ok(s) => s,
        Err(e) => return Err(e),
    };
    let bucket_start = match ha_json_i64_field(o, table, "bucket_start") {
        Ok(v) => v,
        Err(e) => return Err(e),
    };
    let granularity = match ha_json_string_field(o, table, "granularity") {
        Ok(s) => s,
        Err(e) => return Err(e),
    };
    let value = match ha_json_i64_field(o, table, "count") {
        Ok(v) => v,
        Err(e) => return Err(e),
    };
    if value < 0 {
        return Err(negative_error(table));
    }
    let start = i64_to_string(bucket_start);
    let scope = cat(&vec![granularity.as_str(), ":", start.as_str()]);
    proof { reveal_with_fuel(concat_all, 4); }
    let fields = if account {
        HaRuntimeCounterFields::AccountUsageBucket { user_id: id.clone(), bucket_start, granularity }
    } else {
        HaRuntimeCounterFields::TokenUsageBucket { token_id: id.clone(), bucket_start, granularity }
    };
    Ok(Some(HaRuntimeCounterImport { resource_id: id, counter_scope: scope, counter_value: value, fields }))
}

/// The counter a replicated row of `table` carries, if any
/// (`ha_runtime_counter_import_for_row`); `row` holds the row's entries
/// when it is a JSON object.
pub fn ha_runtime_counter_import_for_row(table: &str, row: &Option<Vec<(String, HaJsonScalar)>>) -> (r: Result<Option<HaRuntimeCounterImport>, ProxyError>)
    ensures
        import_result_is(r, counter_import_spec(table@, row_entries(*row))),
{
    let o = match row {
        Some(o) => o,
        None => return Ok(None),
    };
    if str_eq(table, "auth_token_quota") {
        monthly_import(o, table, "token_id", false)
    } else if str_eq(table, "account_monthly_quota") {
        monthly_import(o, table, "user_id", true)
    } else if str_eq(table, "token_usage_buckets") {
        bucket_import(o, table, "token_id", false)
    } else if str_eq(table, "account_usage_buckets") {
        bucket_import(o, table, "user_id", true)
    } else {
        Ok(None)
    }
}

/// What merging a peer's counter row does first.
pub enum HaCounterMergeStart {
    /// Nothing more: the row was (true) or was not (false) taken as a counter.
    Done(bool),
    /// Read the peer's shadow value of this counter, then merge it.
    Import(HaRuntimeCounterImport),
}

/// Starts merging a peer's row of `table` under operation `op`: only the
/// runtime channel carries counters; a counter row that is deleted is taken
/// (and left alone); one that is upserted is merged; any other operation,
/// and any row that is no counter, is not taken.
pub fn ha_runtime_counter_merge_start(channel: HaSyncChannel, table: &str, op: &str, row: &Option<Vec<(String, HaJsonScalar)>>) -> (r: Result<HaCounterMergeStart, ProxyError>)
    ensures
        channel != HaSyncChannel::Runtime ==> r matches Ok(HaCounterMergeStart::Done(false)),
        channel == HaSyncChannel::Runtime ==> match counter_import_spec(table@, row_entries(*row)) {
            Err(msg) => r matches Err(ProxyError::Other(e)) && e@ == msg,
            Ok(None) => r matches Ok(HaCounterMergeStart::Done(false)),
            Ok(Some(c)) => if op@ == "delete"@ {
                r matches Ok(HaCounterMergeStart::Done(true))
            } else if op@ == "upsert"@ {
                r matches Ok(HaCounterMergeStart::Import(x)) && x@ == c
            } else {
                r matches Ok(HaCounterMergeStart::Done(false))
            },
        },
{
    if channel != HaSyncChannel::Runtime {
        return Ok(HaCounterMergeStart::Done(false));
    }
    let counter = match ha_runtime_counter_import_for_row(table, row) {
        Ok(Some(c)) => c,
        Ok(None) => return Ok(HaCounterMergeStart::Done(false)),
        Err(e) => return Err(e),
    };
    if str_eq(op, "delete") {
        return Ok(HaCounterMergeStart::Done(true));
    }
    if !str_eq(op, "upsert") {
        return Ok(HaCounterMergeStart::Done(false));
    }
    Ok(HaCounterMergeStart::Import(counter))
}

/// How much a peer value adds to the local counter over the shadow value
/// kept for it: the rise, never negative.
pub open spec fn counter_delta(previous: int, value: int) -> int {
    let d = sat_sub(value, previous);
    if d < 0 { 0 } else { d }
}

/// The shadow value kept after a peer value: the larger of the two.
pub open spec fn counter_shadow(previous: int, value: int) -> int {
    max_i(previous, value)
}

/// The shadow value to store and the amount to add locally.
pub struct HaCounterShadowUpdate {
    pub shadow_value: i64,
    pub delta: i64,
}

/// Merges a peer value into the shadow value kept for it (zero when none
/// was kept): the shadow keeps the larger, and the local counter grows by
/// how far the peer value passed the shadow.
pub fn ha_runtime_counter_shadow_update(previous: i64, counter_value: i64) -> (r: HaCounterShadowUpdate)
    ensures
        r.delta as int == counter_delta(previous as int, counter_value as int),
        r.shadow_value as int == counter_shadow(previous as int, counter_value as int),
{
    let d = saturating_sub_i64(counter_value, previous);
    HaCounterShadowUpdate {
        shadow_value: if previous >= counter_value { previous } else { counter_value },
        delta: if d < 0 { 0 } else { d },
    }
}

/// Importing the same peer value again adds nothing and leaves the shadow
/// as it was.
pub proof fn lemma_counter_reimport_adds_nothing(previous: int, value: int)
    ensures
        counter_delta(counter_shadow(previous, value), value) == 0,
        counter_shadow(counter_shadow(previous, value), value) == counter_shadow(previous, value),
{
}

/// From a non-negative shadow, the local counter grows by exactly as much
/// as the shadow does, so a peer's counts are added once in all.
pub proof fn lemma_counter_delta_is_shadow_rise(previous: int, value: int)
    requires
        0 <= previous <= i64::MAX,
        i64::MIN <= value <= i64::MAX,
    ensures
        counter_delta(previous, value) == counter_shadow(previous, value) - previous,
        counter_shadow(previous, value) >= previous,
{
}

/// Over two imports from a non-negative shadow, the deltas add up to the
/// total rise of the shadow.
pub proof fn lemma_counter_deltas_add_up(previous: int, first: int, second: int)
    requires
        0 <= previous <= i64::MAX,
        i64::MIN <= first <= i64::MAX,
        i64::MIN <= second <= i64::MAX,
    ensures
        counter_delta(previous, first) + counter_delta(counter_shadow(previous, first), second)
            == counter_shadow(counter_shadow(previous, first), second) - previous,
{
    lemma_counter_delta_is_shadow_rise(previous, first);
    lemma_counter_delta_is_shadow_rise(counter_shadow(previous, first), second);
}

/// Whether a table holds counters of an account (rather than of a token).
pub open spec fn is_account_counter_table(table: Seq<char>) -> bool {
    table == "account_monthly_quota"@ || table == "account_usage_buckets"@
}

/// Whether a table holds counters at all.
pub open spec fn is_counter_table(table: Seq<char>) -> bool {
    table == "auth_token_quota"@ || table == "account_monthly_quota"@
        || table == "token_usage_buckets"@ || table == "account_usage_buckets"@
}

/// A counter read from a row of table `T` feeds a local counter of `T`'s own
/// kind, keyed by the row's own fields: a token's monthly quota for
/// `auth_token_quota`, an account's for `account_monthly_quota`, a token's
/// usage bucket for `token_usage_buckets` and an account's for
/// `account_usage_buckets` (so account counters come from account tables
/// only); its value is the row's count, never negative. A row of any other
/// table, or one that is no object, carries no counter, and a row of a counter
/// table carries one unless it is refused.
pub proof fn lemma_import_feeds_its_own_table(table: Seq<char>, o: Seq<(String, HaJsonScalar)>)
    ensures
        counter_import_spec(table, None) is Ok && counter_import_spec(table, None)->Ok_0 is None,
        !is_counter_table(table) ==> (counter_import_spec(table, Some(o)) is Ok
            && counter_import_spec(table, Some(o))->Ok_0 is None),
        is_counter_table(table) ==> !(counter_import_spec(table, Some(o)) is Ok
            && counter_import_spec(table, Some(o))->Ok_0 is None),
        match counter_import_spec(table, Some(o)) {
            Ok(Some(c)) => {
                &&& c.counter_value >= 0
                &&& ((c.fields is AccountMonthlyQuota || c.fields is AccountUsageBucket) <==> is_account_counter_table(table))
                &&& (table == "auth_token_quota"@ ==> (c.fields matches CounterFieldsModel::AuthTokenQuota { token_id, month_start }
                    && str_field_result(o, table, "token_id"@) == Ok::<Seq<char>, Seq<char>>(token_id)
                    && i64_field_result(o, table, "month_start"@) == Ok::<int, Seq<char>>(month_start as int)
                    && i64_field_result(o, table, "month_count"@) == Ok::<int, Seq<char>>(c.counter_value as int)))
                &&& (table == "account_monthly_quota"@ ==> (c.fields matches CounterFieldsModel::AccountMonthlyQuota { user_id, month_start }
                    && str_field_result(o, table, "user_id"@) == Ok::<Seq<char>, Seq<char>>(user_id)
                    && i64_field_result(o, table, "month_start"@) == Ok::<int, Seq<char>>(month_start as int)
                    && i64_field_result(o, table, "month_count"@) == Ok::<int, Seq<char>>(c.counter_value as int)))
                &&& (table == "token_usage_buckets"@ ==> (c.fields matches CounterFieldsModel::TokenUsageBucket { token_id, bucket_start, granularity }
                    && str_field_result(o, table, "token_id"@) == Ok::<Seq<char>, Seq<char>>(token_id)
                    && i64_field_result(o, table, "bucket_start"@) == Ok::<int, Seq<char>>(bucket_start as int)
                    && str_field_result(o, table, "granularity"@) == Ok::<Seq<char>, Seq<char>>(granularity)
                    && i64_field_result(o, table, "count"@) == Ok::<int, Seq<char>>(c.counter_value as int)))
                &&& (table == "account_usage_buckets"@ ==> (c.fields matches CounterFieldsModel::AccountUsageBucket { user_id, bucket_start, granularity }
                    && str_field_result(o, table, "user_id"@) == Ok::<Seq<char>, Seq<char>>(user_id)
                    && i64_field_result(o, table, "bucket_start"@) == Ok::<int, Seq<char>>(bucket_start as int)
                    && str_field_result(o, table, "granularity"@) == Ok::<Seq<char>, Seq<char>>(granularity)
                    && i64_field_result(o, table, "count"@) == Ok::<int, Seq<char>>(c.counter_value as int)))
            },
            _ => true,
        },
{
    reveal_strlit("auth_token_quota");
    reveal_strlit("account_monthly_quota");
    reveal_strlit("token_usage_buckets");
    reveal_strlit("account_usage_buckets");
    if table == "auth_token_quota"@ {
        lemma_monthly_import_fields(o, table, "token_id"@, false);
    } else if table == "account_monthly_quota"@ {
        lemma_monthly_import_fields(o, table, "user_id"@, true);
        assert(table[8] != "account_usage_buckets"@[8]);
    } else if table == "token_usage_buckets"@ {
        lemma_bucket_import_fields(o, table, "token_id"@, false);
    } else if table == "account_usage_buckets"@ {
        lemma_bucket_import_fields(o, table, "user_id"@, true);
    }
}

/// What a monthly quota row yields: the counter of an account or of a token
/// as `account` says, keyed by the row's id and month, valued by its count.
proof fn lemma_monthly_import_fields(o: Seq<(String, HaJsonScalar)>, table: Seq<char>, id_field: Seq<char>, account: bool)
    ensures
        !(monthly_import_spec(o, table, id_field, account) matches Ok(None)),
        monthly_import_spec(o, table, id_field, account) matches Ok(Some(c)) ==> {
            &&& c.counter_value >= 0
            &&& i64_field_result(o, table, "month_count"@) == Ok::<int, Seq<char>>(c.counter_value as int)
            &&& if account {
                c.fields matches CounterFieldsModel::AccountMonthlyQuota { user_id, month_start }
                    && str_field_result(o, table, id_field) == Ok::<Seq<char>, Seq<char>>(user_id)
                    && i64_field_result(o, table, "month_start"@) == Ok::<int, Seq<char>>(month_start as int)
            } else {
                c.fields matches CounterFieldsModel::AuthTokenQuota { token_id, month_start }
                    && str_field_result(o, table, id_field) == Ok::<Seq<char>, Seq<char>>(token_id)
                    && i64_field_result(o, table, "month_start"@) == Ok::<int, Seq<char>>(month_start as int)
            }
        },
{
    lemma_i64_field_in_range(o, table, "month_start"@);
    lemma_i64_field_in_range(o, table, "month_count"@);
}

/// What a usage bucket row yields: the bucket of an account or of a token as
/// `account` says, keyed by the row's id, start and granularity, valued by
/// its count.
proof fn lemma_bucket_import_fields(o: Seq<(String, HaJsonScalar)>, table: Seq<char>, id_field: Seq<char>, account: bool)
    ensures
        !(bucket_import_spec(o, table, id_field, account) matches Ok(None)),
        bucket_import_spec(o, table, id_field, account) matches Ok(Some(c)) ==> {
            &&& c.counter_value >= 0
            &&& i64_field_result(o, table, "count"@) == Ok::<int, Seq<char>>(c.counter_value as int)
            &&& if account {
                c.fields matches CounterFieldsModel::AccountUsageBucket { user_id, bucket_start, granularity }
                    && str_field_result(o, table, id_field) == Ok::<Seq<char>, Seq<char>>(user_id)
                    && i64_field_result(o, table, "bucket_start"@) == Ok::<int, Seq<char>>(bucket_start as int)
                    && str_field_result(o, table, "granularity"@) == Ok::<Seq<char>, Seq<char>>(granularity)
            } else {
                c.fields matches CounterFieldsModel::TokenUsageBucket { token_id, bucket_start, granularity }
                    && str_field_result(o, table, id_field) == Ok::<Seq<char>, Seq<char>>(token_id)
                    && i64_field_result(o, table, "bucket_start"@) == Ok::<int, Seq<char>>(bucket_start as int)
                    && str_field_result(o, table, "granularity"@) == Ok::<Seq<char>, Seq<char>>(granularity)
            }
        },
{
    lemma_i64_field_in_range(o, table, "bucket_start"@);
    lemma_i64_field_in_range(o, table, "count"@);
}

/// An integer field that reads fits `i64`.
proof fn lemma_i64_field_in_range(o: Seq<(String, HaJsonScalar)>, table: Seq<char>, field: Seq<char>)
    ensures
        i64_field_result(o, table, field) matches Ok(v) ==> i64::MIN <= v <= i64::MAX,
{
}

/// The counter tables are the same everywhere: exactly they have a counter
/// column and a counter scope, they are replicated on the runtime channel,
/// and their counter column is the one an imported row is read from
/// (`month_count` for the monthly quotas, `count` for the usage buckets).
pub proof fn lemma_counter_tables_agree(table: Seq<char>, alias: Option<Seq<char>>)
    ensures
        is_counter_table(table) <==> crate::ha::counter_value_column_spec(table) is Some,
        is_counter_table(table) <==> crate::ha::counter_scope_spec(table, alias) is Some,
        is_counter_table(table) ==> crate::ha::resource_allowed_spec(HaSyncChannel::Runtime, table),
        (table == "auth_token_quota"@ || table == "account_monthly_quota"@)
            ==> crate::ha::counter_value_column_spec(table) == Some("month_count"@),
        (table == "token_usage_buckets"@ || table == "account_usage_buckets"@)
            ==> crate::ha::counter_value_column_spec(table) == Some("count"@),
{
    reveal_strlit("auth_token_quota");
    reveal_strlit("account_monthly_quota");
    reveal_strlit("token_usage_buckets");
    reveal_strlit("account_usage_buckets");
    assert("auth_token_quota"@.len() == 16);
    assert("account_monthly_quota"@.len() == 21);
    assert("token_usage_buckets"@.len() == 19);
    assert("account_usage_buckets"@.len() == 21);
    let rt = crate::ha::runtime_tables();
    if table == "account_monthly_quota"@ {
        assert(rt[0] == table);
    } else if table == "account_usage_buckets"@ {
        assert(rt[2] == table);
        assert(table[8] != "account_monthly_quota"@[8]);
        assert(table != "auth_token_quota"@);
        assert(table != "account_monthly_quota"@);
        assert(crate::ha::counter_value_column_spec(table) == Some("count"@));
    } else if table == "auth_token_quota"@ {
        assert(rt[3] == table);
    } else if table == "token_usage_buckets"@ {
        assert(rt[10] == table);
        assert(table != "auth_token_quota"@);
        assert(table != "account_monthly_quota"@);
        assert(crate::ha::counter_value_column_spec(table) == Some("count"@));
    }
}

} // verus!
