//! Trusted boundary to `serde_json`: node responses arrive as JSON text and
//! the few fields the client reads are pulled out as plain values. Parsing
//! and field lookup are deterministic functions of the document text, so
//! each extraction is given a name; the response readers' contracts fix
//! their results over these names.
use vstd::prelude::*;

verus! {

#[verifier::external_type_specification]
#[verifier::external_body]
pub struct ExJsonValue(serde_json::Value);

/// Whether the text parses as one JSON document.
pub uninterp spec fn spec_json_ok(body: Seq<char>) -> bool;

/// The string under the key path `path` of the parsed document: `None` when
/// the text is not JSON, a key on the path is absent, or the value there is
/// not a JSON string.
pub uninterp spec fn spec_json_str_at(body: Seq<char>, path: Seq<Seq<char>>) -> Option<Seq<char>>;

/// The boolean under the key path `path` of the parsed document; `None` as
/// for `spec_json_str_at`.
pub uninterp spec fn spec_json_bool_at(body: Seq<char>, path: Seq<Seq<char>>) -> Option<bool>;

/// Relies on `serde_json::from_str::<Value>`: parses one JSON document,
/// deterministically in the text; `None` exactly when the text is not valid
/// JSON. The value is carried opaquely.
#[verifier::external_body]
pub(crate) fn parse_json(s: &str) -> (r: Option<serde_json::Value>)
    ensures
        r is Some <==> spec_json_ok(s@),
{
    serde_json::from_str(s).ok()
}

/// Relies on `serde_json::from_str`, `Value::get` and `Value::as_str`: the
/// string under the top-level key `key`, a function of the document text
/// and the key alone.
#[verifier::external_body]
pub(crate) fn json_str_field(body: &str, key: &str) -> (r: Option<String>)
    ensures
        r is Some <==> spec_json_str_at(body@, seq![key@]) is Some,
        r matches Some(s) ==> spec_json_str_at(body@, seq![key@]) == Some(s@),
{
    let v: serde_json::Value = serde_json::from_str(body).ok()?;
    let s = v.get(key)?.as_str()?;
    Some(s.to_string())
}

/// Relies on `serde_json::from_str`, `Value::get` and `Value::as_str`: the
/// string under the three-key path `k1.k2.k3`, a function of the document
/// text and the keys alone.
#[verifier::external_body]
pub(crate) fn json_str_field3(body: &str, k1: &str, k2: &str, k3: &str) -> (r: Option<String>)
    ensures
        r is Some <==> spec_json_str_at(body@, seq![k1@, k2@, k3@]) is Some,
        r matches Some(s) ==> spec_json_str_at(body@, seq![k1@, k2@, k3@]) == Some(s@),
{
    let v: serde_json::Value = serde_json::from_str(body).ok()?;
    let s = v.get(k1)?.get(k2)?.get(k3)?.as_str()?;
    Some(s.to_string())
}

/// Relies on `serde_json::from_str`, `Value::get` and `Value::as_bool`: the
/// boolean under the top-level key `key`, a function of the document text
/// and the key alone.
#[verifier::external_body]
pub(crate) fn json_bool_field(body: &str, key: &str) -> (r: Option<bool>)
    ensures
        r == spec_json_bool_at(body@, seq![key@]),
{
    let v: serde_json::Value = serde_json::from_str(body).ok()?;
    v.get(key)?.as_bool()
}

/// Relies on `serde_json::from_str`, `Value::get` and `Value::as_bool`: the
/// boolean under the two-key path `k1.k2`, a function of the document text
/// and the keys alone.
#[verifier::external_body]
pub(crate) fn json_bool_field2(body: &str, k1: &str, k2: &str) -> (r: Option<bool>)
    ensures
        r == spec_json_bool_at(body@, seq![k1@, k2@]),
{
    let v: serde_json::Value = serde_json::from_str(body).ok()?;
    v.get(k1)?.get(k2)?.as_bool()
}

} // verus!
