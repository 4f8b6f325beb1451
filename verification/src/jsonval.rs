//! Trusted declarations for the JSON values the library reads through
//! serde_json.  What a JSON text parses to, and what a parsed value
//! holds, depend on their arguments alone, so each outside function's
//! result carries a name (`doc_of`, `member_of`, `str_of`, `arr_of`);
//! the contracts downstream speak of those names exactly.

use vstd::prelude::*;

verus! {

/// serde_json's JSON tree type, declared so that values of it can pass
/// through verified code.
#[verifier::external_type_specification]
#[verifier::external_body]
pub struct ExValue(serde_json::Value);

/// The JSON document a text parses to, if it parses as one.
pub uninterp spec fn doc_of(s: Seq<char>) -> Option<serde_json::Value>;

/// The member of a JSON object under a key; nothing for another kind
/// of value or an absent key.
pub uninterp spec fn member_of(v: serde_json::Value, key: Seq<char>) -> Option<
    serde_json::Value,
>;

/// The text of a JSON string value; nothing for another kind of value.
pub uninterp spec fn str_of(v: serde_json::Value) -> Option<Seq<char>>;

/// The elements of a JSON array value; nothing for another kind of
/// value.
pub uninterp spec fn arr_of(v: serde_json::Value) -> Option<Seq<serde_json::Value>>;

/// The string member of a JSON object under a key, if it has one.
pub open spec fn member_str(v: serde_json::Value, key: Seq<char>) -> Option<Seq<char>> {
    match member_of(v, key) {
        Some(m) => str_of(m),
        None => None,
    }
}

/// Relies on serde_json::from_str::<Value>: parses a JSON document, a
/// function of the text alone, named `doc_of`.
#[verifier::external_body]
pub(crate) fn json_parse(s: &str) -> (r: Option<serde_json::Value>)
    ensures
        r == doc_of(s@),
{
    serde_json::from_str(s).ok()
}

/// Relies on serde_json::Value::get with a string key: the member of a
/// JSON object under that key, `None` when the value is no object or
/// lacks the key — the value named `member_of`.
#[verifier::external_body]
pub(crate) fn json_get<'a>(v: &'a serde_json::Value, key: &str) -> (r: Option<
    &'a serde_json::Value,
>)
    ensures
        match r {
            Some(m) => member_of(*v, key@) == Some(*m),
            None => member_of(*v, key@) is None,
        },
{
    v.get(key)
}

/// Relies on serde_json::Value::as_str: the text of a JSON string
/// value, `None` for any other kind of value — the text named `str_of`.
#[verifier::external_body]
pub(crate) fn json_str(v: &serde_json::Value) -> (r: Option<String>)
    ensures
        match r {
            Some(s) => str_of(*v) == Some(s@),
            None => str_of(*v) is None,
        },
{
    match v.as_str() {
        Some(s) => Some(s.to_owned()),
        None => None,
    }
}

/// Relies on serde_json::Value::as_array: the elements of a JSON array,
/// `None` for any other kind of value — the elements named `arr_of`.
#[verifier::external_body]
pub(crate) fn json_array<'a>(v: &'a serde_json::Value) -> (r: Option<&'a Vec<serde_json::Value>>)
    ensures
        match r {
            Some(a) => arr_of(*v) == Some(a@),
            None => arr_of(*v) is None,
        },
{
    v.as_array()
}

/// The string member of a JSON object under `key`, if there is one.
pub(crate) fn field_string(v: &serde_json::Value, key: &str) -> (r: Option<String>)
    ensures
        match r {
            Some(s) => member_str(*v, key@) == Some(s@),
            None => member_str(*v, key@) is None,
        },
{
    match json_get(v, key) {
        Some(f) => json_str(f),
        None => None,
    }
}

} // verus!
