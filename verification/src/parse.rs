//! The one step of the decoder that an outside crate performs: turning JSON
//! text into a document.  Everything after this point works on the crate's own
//! [`JsonValue`] model and is verified.
use vstd::prelude::*;
use crate::json::{JsonNumber, JsonMember, JsonValue};

verus! {

/// The document that a piece of JSON text parses to, or `None` where the text
/// is not valid JSON.  Parsing depends on the text alone, so the result can be
/// named without being written out.
pub uninterp spec fn json_of(text: Seq<char>) -> Option<JsonValue>;

#[verifier::external_type_specification]
#[verifier::external_body]
pub struct ExSerdeValue(serde_json::Value);

#[verifier::external_type_specification]
#[verifier::external_body]
pub struct ExSerdeNumber(serde_json::Number);

/// Relies on serde_json::Number::as_i64 / as_u64 / Display: integers in range
/// keep their value, every other number keeps its canonical decimal rendering.
#[verifier::external_body]
fn number_to_model(n: &serde_json::Number) -> JsonNumber {
    if let Some(i) = n.as_i64() {
        JsonNumber::Int(i)
    } else if let Some(u) = n.as_u64() {
        JsonNumber::Big(u)
    } else {
        JsonNumber::Dec(n.to_string())
    }
}

/// Relies on the shape of serde_json::Value: each variant is carried over to
/// the crate's model one for one, members in the parser's (sorted) key order.
#[verifier::external_body]
fn value_to_model(v: &serde_json::Value) -> JsonValue {
    match v {
        serde_json::Value::Null => JsonValue::Null,
        serde_json::Value::Bool(b) => JsonValue::Bool(*b),
        serde_json::Value::Number(n) => JsonValue::Num(number_to_model(n)),
        serde_json::Value::String(s) => JsonValue::Text(s.clone()),
        serde_json::Value::Array(items) => JsonValue::Arr(items.iter().map(value_to_model).collect()),
        serde_json::Value::Object(members) => JsonValue::Obj(
            members.iter().map(|(k, m)| JsonMember { key: k.clone(), value: value_to_model(m) }).collect(),
        ),
    }
}

/// Relies on serde_json::from_str: parses a JSON document; the result is a
/// function of the text alone, and invalid text gives `None`.
#[verifier::external_body]
pub fn parse_json(text: &str) -> (r: Option<JsonValue>)
    ensures
        r == json_of(text@),
{
    match serde_json::from_str::<serde_json::Value>(text) {
        Ok(v) => Some(value_to_model(&v)),
        Err(_) => None,
    }
}

} // verus!
