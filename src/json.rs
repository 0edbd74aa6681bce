//! A plain-value model of a decoded JSON document, and the two calls into
//! `serde_json` that the library relies on: decoding a reply body and encoding
//! a string literal.

use vstd::prelude::*;

verus! {

/// A decoded JSON value. Object members keep the order in which the decoder
/// handed them out; numbers keep their textual form, which nothing here reads.
pub enum Json {
    Null,
    Bool(bool),
    Number(String),
    Str(String),
    Array(Vec<Json>),
    Object(Vec<(String, Json)>),
}

/// What `serde_json` decodes from the given text: `None` where the text is
/// not a JSON document.
pub uninterp spec fn decoded(text: Seq<char>) -> Option<Json>;

/// What `serde_json` writes for a string: the JSON string literal, quotes and
/// escapes included.
pub uninterp spec fn string_literal(s: Seq<char>) -> Seq<char>;

/// The value stored under `key` in a list of object members: the first one
/// that carries that key.
pub open spec fn member(fields: Seq<(String, Json)>, key: Seq<char>) -> Option<Json>
    decreases fields.len(),
{
    if fields.len() == 0 {
        None
    } else if fields[0].0@ == key {
        Some(fields[0].1)
    } else {
        member(fields.drop_first(), key)
    }
}

/// The value stored under `key` when `v` is an object; `None` otherwise.
pub open spec fn field(v: Json, key: Seq<char>) -> Option<Json> {
    match v {
        Json::Object(fields) => member(fields@, key),
        _ => None,
    }
}

/// Looks `key` up among the members of an object.
pub fn lookup<'a>(fields: &'a Vec<(String, Json)>, key: &str) -> (r: Option<&'a Json>)
    ensures
        match r {
            Some(v) => member(fields@, key@) == Some(*v),
            None => member(fields@, key@) is None,
        },
{
    let mut i: usize = 0;
    assert(fields@.skip(0) =~= fields@);
    while i < fields.len()
        invariant
            i <= fields.len(),
            member(fields@, key@) == member(fields@.skip(i as int), key@),
        decreases fields.len() - i,
    {
        let k = String::from_str(key);
        if fields[i].0 == k {
            return Some(&fields[i].1);
        }
        assert(fields@.skip(i as int).drop_first() =~= fields@.skip(i as int + 1));
        i = i + 1;
    }
    assert(fields@.skip(i as int).len() == 0);
    None
}

/// Relies on `serde_json::from_str::<serde_json::Value>`: decodes the text into
/// a value whose shape depends on the text alone. On failure the decoder's
/// message is handed back.
#[verifier::external_body]
pub(crate) fn decode(text: &str) -> (r: Result<Json, String>)
    ensures
        match r {
            Ok(v) => decoded(text@) == Some(v),
            Err(_) => decoded(text@) is None,
        },
{
    match serde_json::from_str::<serde_json::Value>(text) {
        Ok(v) => Ok(from_value(v)),
        Err(e) => Err(e.to_string()),
    }
}

/// `serde_json`'s decoded value, carried only from the decoder into
/// `from_value`.
#[verifier::external_type_specification]
#[verifier::external_body]
pub struct ExValue(serde_json::Value);

/// Moves a `serde_json::Value` into the library's own model, variant for
/// variant. Only `decode` calls it.
#[verifier::external_body]
fn from_value(v: serde_json::Value) -> Json {
    match v {
        serde_json::Value::Null => Json::Null,
        serde_json::Value::Bool(b) => Json::Bool(b),
        serde_json::Value::Number(n) => Json::Number(n.to_string()),
        serde_json::Value::String(s) => Json::Str(s),
        serde_json::Value::Array(a) => Json::Array(a.into_iter().map(from_value).collect()),
        serde_json::Value::Object(m) => Json::Object(m.into_iter().map(|(k, x)| (k, from_value(x))).collect()),
    }
}

/// Relies on `serde_json::to_string` on a `str`: the string as a JSON string
/// literal. Serializing a `str` into memory cannot fail, so the empty default
/// is never taken.
#[verifier::external_body]
pub(crate) fn quote(s: &str) -> (r: String)
    ensures
        r@ == string_literal(s@),
{
    serde_json::to_string(s).unwrap_or_default()
}

} // verus!
