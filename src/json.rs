//! A model of a parsed JSON document, and the two calls into serde_json that
//! the codec makes: parsing a line and quoting a string.
use vstd::prelude::*;

verus! {

/// A JSON document as the codec reads it. Object members keep the order in
/// which the parser handed them over.
pub enum JsonValue {
    Null,
    Bool(bool),
    /// A non-negative integer that fits in 64 bits.
    Unsigned(u64),
    /// Any other number (negative, fractional or with an exponent), as text.
    OtherNumber(String),
    Str(String),
    Array(Vec<JsonValue>),
    Object(Vec<(String, JsonValue)>),
}

/// What serde_json's parser makes of a line, in this model; `None` where the
/// line is not one well-formed JSON document.
pub uninterp spec fn json_parse(text: Seq<char>) -> Option<JsonValue>;

/// The JSON string literal that serde_json writes for a string: quotes
/// around it, with the characters that need it escaped.
pub uninterp spec fn json_quoted(s: Seq<char>) -> Seq<char>;

/// Relies on `serde_json::from_str::<serde_json::Value>`: it accepts exactly
/// the well-formed JSON documents, and its result depends on the text alone.
#[verifier::external_body]
pub(crate) fn parse_json(line: &str) -> (r: Option<JsonValue>)
    ensures
        r == json_parse(line@),
{
    serde_json::from_str::<serde_json::Value>(line).ok().map(from_serde_value)
}

/// Relies on `serde_json::to_string` on a `str`: it writes the string as a
/// JSON literal and cannot fail on one.
#[verifier::external_body]
pub(crate) fn quote(s: &str) -> (r: String)
    ensures
        r@ == json_quoted(s@),
{
    serde_json::to_string(s).unwrap_or_default()
}

/// The parser's own document type, carried through opaquely.
#[verifier::external_type_specification]
#[verifier::external_body]
pub struct ExValue(serde_json::Value);

/// Relies on the public variants of `serde_json::Value`, on `Number::as_u64`
/// (`Some` exactly for a non-negative integer) and on `Number`'s `Display`:
/// moves a parsed document into this model, variant by variant.
#[verifier::external_body]
fn from_serde_value(v: serde_json::Value) -> JsonValue {
    match v {
        serde_json::Value::Null => JsonValue::Null,
        serde_json::Value::Bool(b) => JsonValue::Bool(b),
        serde_json::Value::Number(n) => match n.as_u64() {
            Some(u) => JsonValue::Unsigned(u),
            None => JsonValue::OtherNumber(n.to_string()),
        },
        serde_json::Value::String(s) => JsonValue::Str(s),
        serde_json::Value::Array(a) => JsonValue::Array(a.into_iter().map(from_serde_value).collect()),
        serde_json::Value::Object(o) => JsonValue::Object(o.into_iter().map(|(k, x)| (k, from_serde_value(x))).collect()),
    }
}

} // verus!
