//! Trusted queries against JSON text, answered by serde_json.
//!
//! Each query is a pure function of the text it is given, so its result
//! either carries a name (an uninterpreted spec function) that the
//! verified decoding logic composes, or — where a few lines can state it
//! — an exact contract.  Nothing else in the crate is trusted.
use vstd::prelude::*;

verus! {

/// The string value at `key` when `doc` parses as a JSON object holding a
/// string there.
pub uninterp spec fn json_str_field(doc: Seq<char>, key: Seq<char>) -> Option<Seq<char>>;

/// The unsigned integer value at `key` when `doc` parses as a JSON object
/// holding one there.
pub uninterp spec fn json_u64_field(doc: Seq<char>, key: Seq<char>) -> Option<u64>;

/// The value at `key`, re-rendered as JSON text, when `doc` parses as a
/// JSON object with that key.
pub uninterp spec fn json_raw_field(doc: Seq<char>, key: Seq<char>) -> Option<Seq<char>>;

/// The number at `key`, re-rendered as JSON text, when `doc` parses as a
/// JSON object holding a number there.
pub uninterp spec fn json_number_field(doc: Seq<char>, key: Seq<char>) -> Option<Seq<char>>;

/// JSON's interelement whitespace.
pub open spec fn is_json_ws(c: char) -> bool {
    c == ' ' || c == '\t' || c == '\n' || c == '\r'
}

/// `s` with JSON whitespace stripped from both ends.
pub open spec fn spec_trim_json_ws(s: Seq<char>) -> Seq<char>
    decreases s.len(),
{
    if s.len() > 0 && is_json_ws(s[0]) {
        spec_trim_json_ws(s.drop_first())
    } else if s.len() > 0 && is_json_ws(s.last()) {
        spec_trim_json_ws(s.drop_last())
    } else {
        s
    }
}

/// The boolean `doc` itself denotes: exactly the token `true` or `false`
/// with nothing but JSON whitespace around it.
pub open spec fn json_bool_doc(doc: Seq<char>) -> Option<bool> {
    let t = spec_trim_json_ws(doc);
    if t == "true"@ {
        Some(true)
    } else if t == "false"@ {
        Some(false)
    } else {
        None
    }
}

/// The length of `doc` when it parses as a JSON array.
pub uninterp spec fn json_array_len(doc: Seq<char>) -> Option<usize>;

/// The element at `idx`, re-rendered as JSON text, when `doc` parses as a
/// JSON array long enough.
pub uninterp spec fn json_elem(doc: Seq<char>, idx: int) -> Option<Seq<char>>;

/// Relies on serde_json::from_str, Value::get and Value::as_str: answers
/// the string value at `key` of the JSON object in `doc`.
#[verifier::external_body]
pub fn get_str_field(doc: &str, key: &str) -> (r: Option<String>)
    ensures
        r.deep_view() == json_str_field(doc@, key@),
{
    let v: serde_json::Value = serde_json::from_str(doc).ok()?;
    let s = v.get(key)?.as_str()?;
    Some(s.to_string())
}

/// Relies on serde_json::from_str, Value::get and Value::as_u64: answers
/// the unsigned integer value at `key` of the JSON object in `doc`.
#[verifier::external_body]
pub fn get_u64_field(doc: &str, key: &str) -> (r: Option<u64>)
    ensures
        r == json_u64_field(doc@, key@),
{
    let v: serde_json::Value = serde_json::from_str(doc).ok()?;
    v.get(key)?.as_u64()
}

/// Relies on serde_json::from_str, Value::get and serde_json::to_string:
/// answers the value at `key` of the JSON object in `doc`, as JSON text
/// (deterministic: serde_json keeps object keys sorted).
#[verifier::external_body]
pub fn get_raw_field(doc: &str, key: &str) -> (r: Option<String>)
    ensures
        r.deep_view() == json_raw_field(doc@, key@),
{
    let v: serde_json::Value = serde_json::from_str(doc).ok()?;
    let f = v.get(key)?;
    Some(serde_json::to_string(f).unwrap_or_default())
}

/// Relies on serde_json::from_str, Value::get, Value::is_number and
/// serde_json::to_string: answers the number at `key` of the JSON object
/// in `doc`, as its JSON text.
#[verifier::external_body]
pub fn get_number_field(doc: &str, key: &str) -> (r: Option<String>)
    ensures
        r.deep_view() == json_number_field(doc@, key@),
{
    let v: serde_json::Value = serde_json::from_str(doc).ok()?;
    let f = v.get(key)?;
    if !f.is_number() {
        return None;
    }
    Some(serde_json::to_string(f).unwrap_or_default())
}

/// Relies on serde_json::from_str for bool, whose whole behaviour the
/// contract states: it accepts exactly a `true` or `false` token amid
/// JSON whitespace.
#[verifier::external_body]
pub fn get_bool_doc(doc: &str) -> (r: Option<bool>)
    ensures
        r == json_bool_doc(doc@),
{
    serde_json::from_str::<bool>(doc).ok()
}

/// Relies on serde_json::from_str and Value::as_array: answers the length
/// of the JSON array in `doc`.
#[verifier::external_body]
pub fn get_array_len(doc: &str) -> (r: Option<usize>)
    ensures
        r == json_array_len(doc@),
{
    let v: serde_json::Value = serde_json::from_str(doc).ok()?;
    let a = v.as_array()?;
    Some(a.len())
}

/// Relies on serde_json::from_str, Value::get and serde_json::to_string:
/// answers the element at `idx` of the JSON array in `doc`, as JSON text.
#[verifier::external_body]
pub fn get_elem(doc: &str, idx: usize) -> (r: Option<String>)
    ensures
        r.deep_view() == json_elem(doc@, idx as int),
{
    let v: serde_json::Value = serde_json::from_str(doc).ok()?;
    let e = v.get(idx)?;
    Some(serde_json::to_string(e).unwrap_or_default())
}

} // verus!
