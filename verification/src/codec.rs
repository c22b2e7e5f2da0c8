//! The bridge to serde_json: parsing a text into the library's own `Json`
//! model. Parsing itself is outside code and is taken on trust; everything
//! downstream of it is verified against the name `parsed_json`.

use vstd::prelude::*;

use crate::json::Json;

verus! {

/// Declares serde_json's value type so that the two functions below can pass
/// one through; it stays opaque, and only `model_of` speaks of its contents.
#[verifier::external_type_specification]
#[verifier::external_body]
pub struct ExValue(serde_json::Value);

/// The document a text denotes: `Some` exactly when the text is valid JSON.
/// Both parsing and the rebuilding of the tree in the library's model depend
/// on the text alone, so the composite result can bear a name.
pub uninterp spec fn parsed_json(s: Seq<char>) -> Option<Json>;

/// The library's model of what a `serde_json::Value` holds.
pub uninterp spec fn model_of(v: serde_json::Value) -> Json;

/// Relies on serde_json::from_str::<serde_json::Value>: it succeeds exactly
/// on valid JSON text, and its result is a function of the text alone.
#[verifier::external_body]
fn parse_value(text: &str) -> (r: Option<serde_json::Value>)
    ensures
        r is Some <==> parsed_json(text@) is Some,
        r matches Some(v) ==> parsed_json(text@) == Some(model_of(v)),
{
    serde_json::from_str::<serde_json::Value>(text).ok()
}

/// Relies on serde_json::Value being a finite tree of plain values: each
/// variant is rebuilt as the matching variant of the library's model, and a
/// number keeps the text of serde_json's canonical rendering (`Number`'s
/// `Display`).
#[verifier::external_body]
fn from_value(v: &serde_json::Value) -> (r: Json)
    ensures
        r == model_of(*v),
{
    match v {
        serde_json::Value::Null => Json::Null,
        serde_json::Value::Bool(b) => Json::Bool(*b),
        serde_json::Value::Number(n) => Json::Num(n.to_string()),
        serde_json::Value::String(s) => Json::Text(s.clone()),
        serde_json::Value::Array(a) => Json::Arr(a.iter().map(from_value).collect()),
        serde_json::Value::Object(o) => Json::Obj(
            o.iter().map(|(k, c)| (k.clone(), from_value(c))).collect(),
        ),
    }
}

/// Parse a text as JSON into the library's model; `None` when the text is not
/// valid JSON.
pub fn parse_json(text: &str) -> (r: Option<Json>)
    ensures
        r == parsed_json(text@),
{
    match parse_value(text) {
        Some(v) => Some(from_value(&v)),
        None => None,
    }
}

} // verus!
