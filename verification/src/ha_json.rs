//! The JSON of the HA replication streams, as the library reads it: one
//! level of an object at a time, scalars kept, nested values kept as text.

use vstd::prelude::*;
use serde_json::Value as JsonValue;
use crate::text::{chars_of, parse_i64, parse_i64_chars, str_eq};

verus! {

/// A JSON value one level deep: scalars as they are, a number by its JSON
/// text, an array or an object by its JSON text.
pub enum HaJsonValue {
    Null,
    Bool(bool),
    Number(String),
    Str(String),
    Array(String),
    Object(String),
}

/// The mathematical value of an [`HaJsonValue`].
pub enum HaJsonValueModel {
    Null,
    Bool(bool),
    Number(Seq<char>),
    Str(Seq<char>),
    Array(Seq<char>),
    Object(Seq<char>),
}

impl View for HaJsonValue {
    type V = HaJsonValueModel;

    open spec fn view(&self) -> HaJsonValueModel {
        match self {
            HaJsonValue::Null => HaJsonValueModel::Null,
            HaJsonValue::Bool(b) => HaJsonValueModel::Bool(*b),
            HaJsonValue::Number(t) => HaJsonValueModel::Number(t@),
            HaJsonValue::Str(s) => HaJsonValueModel::Str(s@),
            HaJsonValue::Array(t) => HaJsonValueModel::Array(t@),
            HaJsonValue::Object(t) => HaJsonValueModel::Object(t@),
        }
    }
}

/// The models of an object's entries.
pub open spec fn json_entries_view(e: Seq<(String, HaJsonValue)>) -> Seq<(Seq<char>, HaJsonValueModel)> {
    e.map_values(|x: (String, HaJsonValue)| (x.0@, x.1@))
}

/// The model of an optional value.
pub open spec fn opt_json_view(v: Option<HaJsonValue>) -> Option<HaJsonValueModel> {
    match v {
        Some(x) => Some(x@),
        None => None,
    }
}

/// What `serde_json` makes of `text`: the entries of the object it holds,
/// no object when it holds another JSON value, or the message of the error
/// when it is not JSON.
pub uninterp spec fn serde_json_object(text: Seq<char>) -> Result<Option<Seq<(Seq<char>, HaJsonValueModel)>>, Seq<char>>;

/// What `format!("{:?}", s)` gives for an optional string.
pub uninterp spec fn rust_debug_opt_str(s: Option<Seq<char>>) -> Seq<char>;

/// Calls `serde_json::from_str::<serde_json::Value>` on `text` and converts
/// the result: an object to its entries (each value converted one for one:
/// a number, array or object to its `to_string()` text), another value to
/// `None`, an error to its message. Claimed: the result is
/// `serde_json_object(text)`.
#[verifier::external_body]
pub(crate) fn parse_json_object(text: &str) -> (r: Result<Option<Vec<(String, HaJsonValue)>>, String>)
    ensures
        match r {
            Ok(Some(e)) => serde_json_object(text@) == Ok::<_, Seq<char>>(Some(json_entries_view(e@))),
            Ok(None) => serde_json_object(text@) == Ok::<_, Seq<char>>(None::<Seq<(Seq<char>, HaJsonValueModel)>>),
            Err(m) => serde_json_object(text@) == Err::<Option<Seq<(Seq<char>, HaJsonValueModel)>>, _>(m@),
        },
{
    match serde_json::from_str::<JsonValue>(text) {
        Err(err) => Err(err.to_string()),
        Ok(JsonValue::Object(map)) => Ok(Some(map.into_iter().map(|(key, value)| (key, match value {
            JsonValue::Null => HaJsonValue::Null,
            JsonValue::Bool(b) => HaJsonValue::Bool(b),
            JsonValue::Number(n) => HaJsonValue::Number(n.to_string()),
            JsonValue::String(s) => HaJsonValue::Str(s),
            v @ JsonValue::Array(_) => HaJsonValue::Array(v.to_string()),
            v @ JsonValue::Object(_) => HaJsonValue::Object(v.to_string()),
        })).collect())),
        Ok(_) => Ok(None),
    }
}

/// Formats an optional string with `format!("{:?}", s)`. Claimed: the result
/// is `rust_debug_opt_str(s)`.
#[verifier::external_body]
pub(crate) fn debug_opt_str(s: Option<&str>) -> (r: String)
    ensures
        r@ == rust_debug_opt_str(match s { Some(x) => Some(x@), None => None }),
{
    format!("{:?}", s)
}

/// The value under `key`: that of the first entry with that key.
pub open spec fn json_lookup(e: Seq<(Seq<char>, HaJsonValueModel)>, key: Seq<char>) -> Option<HaJsonValueModel>
    decreases e.len(),
{
    if e.len() == 0 {
        None
    } else if e[0].0 == key {
        Some(e[0].1)
    } else {
        json_lookup(e.drop_first(), key)
    }
}

/// The text of a string value.
pub open spec fn json_as_str(v: Option<HaJsonValueModel>) -> Option<Seq<char>> {
    match v {
        Some(HaJsonValueModel::Str(s)) => Some(s),
        _ => None,
    }
}

/// The integer of a number whose text is a decimal integer within `i64`.
pub open spec fn json_as_i64(v: Option<HaJsonValueModel>) -> Option<i64> {
    match v {
        Some(HaJsonValueModel::Number(t)) => match parse_i64(t) {
            Some(x) => Some(x as i64),
            None => None,
        },
        _ => None,
    }
}

/// The index of the first entry with `key`.
pub fn json_find(e: &Vec<(String, HaJsonValue)>, key: &str) -> (r: Option<usize>)
    ensures
        match r {
            Some(i) => i < e.len() && json_lookup(json_entries_view(e@), key@) == Some(e@[i as int].1@),
            None => json_lookup(json_entries_view(e@), key@) is None,
        },
{
    let ghost v = json_entries_view(e@);
    let mut i: usize = 0;
    proof { assert(v.skip(0) =~= v); }
    while i < e.len()
        invariant
            i <= e.len(),
            v == json_entries_view(e@),
            json_lookup(v, key@) == json_lookup(v.skip(i as int), key@),
        decreases e.len() - i,
    {
        proof {
            assert(v.skip(i as int)[0] == (e@[i as int].0@, e@[i as int].1@));
            assert(v.skip(i as int).drop_first() =~= v.skip(i + 1));
        }
        if str_eq(e[i].0.as_str(), key) {
            return Some(i);
        }
        i = i + 1;
    }
    proof { assert(v.skip(i as int).len() == 0); }
    None
}

/// The value under `key`, if any.
pub fn json_get(e: &Vec<(String, HaJsonValue)>, key: &str) -> (r: Option<HaJsonValue>)
    ensures
        opt_json_view(r) == json_lookup(json_entries_view(e@), key@),
{
    match json_find(e, key) {
        Some(i) => Some(clone_json_value(&e[i])),
        None => None,
    }
}

/// A copy of an entry's value.
fn clone_json_value(entry: &(String, HaJsonValue)) -> (r: HaJsonValue)
    ensures
        r@ == entry.1@,
{
    match &entry.1 {
        HaJsonValue::Null => HaJsonValue::Null,
        HaJsonValue::Bool(b) => HaJsonValue::Bool(*b),
        HaJsonValue::Number(t) => HaJsonValue::Number(t.clone()),
        HaJsonValue::Str(s) => HaJsonValue::Str(s.clone()),
        HaJsonValue::Array(t) => HaJsonValue::Array(t.clone()),
        HaJsonValue::Object(t) => HaJsonValue::Object(t.clone()),
    }
}

/// The text of the string under `key`, if it is a string.
pub fn json_str_field(e: &Vec<(String, HaJsonValue)>, key: &str) -> (r: Option<String>)
    ensures
        match r {
            Some(s) => json_as_str(json_lookup(json_entries_view(e@), key@)) == Some(s@),
            None => json_as_str(json_lookup(json_entries_view(e@), key@)) is None,
        },
{
    match json_get(e, key) {
        Some(HaJsonValue::Str(s)) => Some(s),
        _ => None,
    }
}

/// The integer of a number value whose text is a decimal integer in range.
pub fn json_value_as_i64(v: &Option<HaJsonValue>) -> (r: Option<i64>)
    ensures
        r == json_as_i64(opt_json_view(*v)),
{
    match v {
        Some(HaJsonValue::Number(t)) => {
            let c = chars_of(t.as_str());
            proof { assert(c@.subrange(0, c@.len() as int) =~= t@); }
            parse_i64_chars(&c, 0, c.len())
        }
        _ => None,
    }
}

/// The integer under `key`, when it is a number whose text is a decimal
/// integer in range.
pub fn json_i64_field(e: &Vec<(String, HaJsonValue)>, key: &str) -> (r: Option<i64>)
    ensures
        r == json_as_i64(json_lookup(json_entries_view(e@), key@)),
{
    let v = json_get(e, key);
    json_value_as_i64(&v)
}

} // verus!
