//! Trusted boundary around serde_json for the audit redaction step. A JSON
//! object parsed from a body is held opaquely; its contents are modeled as
//! a map from key to the value's compact JSON text, and the redaction logic
//! works against that model.
use vstd::prelude::*;

verus! {

/// A JSON object as parsed by serde_json, held opaquely. The entries are
/// visible to contracts only through [`obj_entries`].
#[verifier::external_body]
pub struct JsonObj {
    inner: serde_json::Map<String, serde_json::Value>,
}

/// The entries of a parsed JSON object: each key mapped to the compact JSON
/// text of its value.
pub uninterp spec fn obj_entries(o: JsonObj) -> Map<Seq<char>, Seq<char>>;

/// What parsing a string as a JSON object yields: `Some` exactly when the
/// whole string is a JSON object, with each key mapped to the compact JSON
/// text of its value. Names the result of serde_json's `from_str` for a
/// string-keyed map, a function of the string alone.
pub uninterp spec fn json_object_of(s: Seq<char>) -> Option<Map<Seq<char>, Seq<char>>>;

/// The compact JSON serialization of an object with the given entries.
/// Names the result of serde_json's `to_string` on a JSON object, a
/// function of the entries alone (keys are kept sorted, so the entries
/// determine the text).
pub uninterp spec fn object_string(entries: Map<Seq<char>, Seq<char>>) -> Seq<char>;

/// Relies on serde_json's `from_str::<Map<String, Value>>`: succeeds exactly
/// when the string is one JSON object, whose entries it returns.
#[verifier::external_body]
pub fn parse_json_object(s: &str) -> (r: Option<JsonObj>)
    ensures
        r is Some <==> json_object_of(s@) is Some,
        r matches Some(o) ==> json_object_of(s@) == Some(obj_entries(o)),
{
    match serde_json::from_str::<serde_json::Map<String, serde_json::Value>>(s) {
        Ok(inner) => Some(JsonObj { inner }),
        Err(_) => None,
    }
}

/// Relies on serde_json's `Map::contains_key`.
#[verifier::external_body]
pub fn json_contains_key(o: &JsonObj, key: &str) -> (r: bool)
    ensures
        r == obj_entries(*o).dom().contains(key@),
{
    o.inner.contains_key(key)
}

/// Relies on serde_json's `Map::insert`: replaces the value under `key`
/// with the JSON string `"[REDACTED]"`, whose compact text is the marker in
/// quotes.
#[verifier::external_body]
pub fn json_redact_value(o: &mut JsonObj, key: &str)
    ensures
        obj_entries(*final(o)) == obj_entries(*old(o)).insert(key@, "\"[REDACTED]\""@),
{
    o.inner.insert(key.to_string(), serde_json::Value::String("[REDACTED]".to_string()));
}

/// Relies on serde_json's `to_string`: the compact serialization of the
/// object. serde_json documents serialization as fallible only for maps
/// with non-string keys or a failing `Serialize` impl, neither of which a
/// `Map<String, Value>` can hold, so the fallback arm is unreachable. The
/// serialized text parses back to exactly the object it came from (the
/// round trip serde_json documents).
#[verifier::external_body]
pub fn json_object_text(o: &JsonObj) -> (r: String)
    ensures
        r@ == object_string(obj_entries(*o)),
        json_object_of(r@) == Some(obj_entries(*o)),
{
    match serde_json::to_string(&o.inner) {
        Ok(s) => s,
        Err(_) => String::new(),
    }
}

} // verus!
