//! Trusted boundary to serde_json. The backend speaks JSON; parsing a body
//! and walking the parsed tree go through the wrappers here, and everything
//! that follows them is verified against their contracts. Each named result
//! below is a function of the wrapper's arguments alone.

use vstd::prelude::*;

verus! {

#[verifier::external_type_specification]
#[verifier::external_body]
pub struct ExValue(serde_json::Value);

/// What `serde_json::from_str::<Value>` returns for the given text, `None`
/// for a parse failure; parsing is a function of the text alone.
pub uninterp spec fn json_parsed(s: Seq<char>) -> Option<serde_json::Value>;

/// What serde_json's parse error renders as, for text the parser rejects;
/// the rendering (message, line and column) is a function of the text
/// alone.
pub uninterp spec fn json_parse_error(s: Seq<char>) -> Seq<char>;

/// Relies on `serde_json::from_str::<Value>`: a deterministic parse of one
/// JSON document; when the parser rejects the text, the error's rendered
/// detail.
#[verifier::external_body]
pub fn parse_json(s: &str) -> (r: Result<serde_json::Value, String>)
    ensures
        match r {
            Ok(v) => json_parsed(s@) == Some(v),
            Err(e) => json_parsed(s@) is None && e@ == json_parse_error(s@),
        },
{
    match serde_json::from_str::<serde_json::Value>(s) {
        Ok(v) => Ok(v),
        Err(e) => Err(e.to_string()),
    }
}

/// What `serde_json::Value::get` returns: the value under the key when the
/// receiver is an object holding it, `None` otherwise.
pub uninterp spec fn json_field(v: serde_json::Value, key: Seq<char>) -> Option<serde_json::Value>;

/// Relies on `serde_json::Value::get`: looks a key up in a JSON object;
/// `None` when the value is not an object or the key is absent.
#[verifier::external_body]
pub fn json_get<'a>(v: &'a serde_json::Value, key: &str) -> (r: Option<&'a serde_json::Value>)
    ensures
        match r {
            Some(f) => json_field(*v, key@) == Some(*f),
            None => json_field(*v, key@) is None,
        },
{
    v.get(key)
}

/// What `serde_json::Value::as_str` returns: the characters of a JSON
/// string value, `None` for any other kind of value.
pub uninterp spec fn json_str(v: serde_json::Value) -> Option<Seq<char>>;

/// Relies on `serde_json::Value::as_str`: `Some` exactly when the value is
/// a JSON string, returning that string.
#[verifier::external_body]
pub fn json_as_string(v: &serde_json::Value) -> (r: Option<String>)
    ensures
        match r {
            Some(s) => json_str(*v) == Some(s@),
            None => json_str(*v) is None,
        },
{
    match v.as_str() {
        Some(s) => Some(s.to_owned()),
        None => None,
    }
}

/// Whether `serde_json::Value::is_null` holds of the value.
pub uninterp spec fn json_null(v: serde_json::Value) -> bool;

/// Relies on `serde_json::Value::is_null`.
#[verifier::external_body]
pub fn json_is_null(v: &serde_json::Value) -> (r: bool)
    ensures
        r == json_null(*v),
{
    v.is_null()
}

/// What the entries of a JSON object are, in the map's iteration order
/// (sorted by key), `None` when the value is not an object.
pub uninterp spec fn json_entries(v: serde_json::Value) -> Option<
    Seq<(String, serde_json::Value)>,
>;

/// Relies on `serde_json::Value::as_object` and `Map::iter`: the object's
/// entries in the map's iteration order (sorted by key, the map being
/// BTreeMap-backed), or `None` when the value is not an object.
#[verifier::external_body]
pub fn json_object_entries(v: &serde_json::Value) -> (r: Option<
    Vec<(String, serde_json::Value)>,
>)
    ensures
        match r {
            Some(es) => json_entries(*v) == Some(es@),
            None => json_entries(*v) is None,
        },
{
    match v.as_object() {
        Some(m) => Some(m.iter().map(|(k, val)| (k.clone(), val.clone())).collect()),
        None => None,
    }
}

} // verus!
