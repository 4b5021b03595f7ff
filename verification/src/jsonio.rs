//! Reading and writing JSON text through serde_json.
//!
//! The reader and writer themselves are outside code; each is reached through
//! one trusted wrapper whose result is named by an uninterpreted spec
//! function, since JSON well-formedness and the writer's exact text take pages
//! to state. Everything the library decides about a parsed document happens on
//! the `Json` model in verified code.
use vstd::prelude::*;

use crate::json::{Json, JsonObject, JsonV, jview};

verus! {

#[verifier::external_type_specification]
#[verifier::external_body]
pub struct ExValue(serde_json::Value);

/// The value a text denotes as well-formed JSON, or `None`: what
/// `serde_json::from_str` accepts and returns depends on the text alone.
pub uninterp spec fn spec_parse_json(s: Seq<char>) -> Option<JsonV>;

/// The text the JSON writer prints for a value: what `serde_json::to_string`
/// returns depends on the value alone.
pub uninterp spec fn spec_json_text(j: JsonV) -> Seq<char>;

/// Bridge from a decoded `serde_json::Value` tree to the plain model: one arm
/// per variant, numbers carried over as the serde_json printer's decimal text.
/// Only the two wrappers below call it.
#[verifier::external_body]
fn value_to_json(v: serde_json::Value) -> Json {
    match v {
        serde_json::Value::Null => Json::Null,
        serde_json::Value::Bool(b) => Json::Bool(b),
        serde_json::Value::Number(n) => Json::Num(n.to_string()),
        serde_json::Value::String(s) => Json::Str(s),
        serde_json::Value::Array(a) => Json::Arr(a.into_iter().map(value_to_json).collect()),
        serde_json::Value::Object(m) => Json::Obj(
            JsonObject { entries: m.into_iter().map(|(k, w)| (k, value_to_json(w))).collect() },
        ),
    }
}

/// Bridge from the plain model back to a `serde_json::Value` tree: one arm per
/// variant; a number text the reader refuses falls back to null, which the
/// model never holds for values it read itself.
#[verifier::external_body]
fn json_to_value(j: &Json) -> serde_json::Value {
    match j {
        Json::Null => serde_json::Value::Null,
        Json::Bool(b) => serde_json::Value::Bool(*b),
        Json::Num(s) => match s.parse::<serde_json::Number>() {
            Ok(n) => serde_json::Value::Number(n),
            Err(_) => serde_json::Value::Null,
        },
        Json::Str(s) => serde_json::Value::String(s.clone()),
        Json::Arr(items) => serde_json::Value::Array(items.iter().map(json_to_value).collect()),
        Json::Obj(m) => serde_json::Value::Object(
            m.entries.iter().map(|(k, w)| (k.clone(), json_to_value(w))).collect(),
        ),
    }
}

/// Relies on `serde_json::from_str::<serde_json::Value>`: decodes a text as
/// JSON, or reports why it is not. The error text is the reader's own words.
#[verifier::external_body]
pub(crate) fn parse_json_text(s: &str) -> (r: Result<Json, String>)
    ensures
        match r {
            Ok(j) => spec_parse_json(s@) == Some(jview(j)),
            Err(_) => spec_parse_json(s@) is None,
        },
{
    match serde_json::from_str::<serde_json::Value>(s) {
        Ok(v) => Ok(value_to_json(v)),
        Err(e) => Err(e.to_string()),
    }
}

/// Relies on `serde_json::to_string`: prints a value as compact JSON text.
#[verifier::external_body]
pub(crate) fn json_text(j: &Json) -> (r: String)
    ensures
        r@ == spec_json_text(jview(*j)),
{
    match serde_json::to_string(&json_to_value(j)) {
        Ok(s) => s,
        Err(_) => String::new(),
    }
}

} // verus!
