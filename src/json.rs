//! JSON text as a tree of plain values, read by serde_json.
use vstd::prelude::*;

verus! {

/// serde_json's value type, carried opaquely from the reader to the
/// conversion below.
#[verifier::external_type_specification]
#[verifier::external_body]
pub struct ExJsonValue(serde_json::Value);

/// A JSON value. Numbers keep their textual form; an object keeps its members
/// as key and value pairs.
#[derive(Debug)]
pub enum JsonValue {
    Null,
    Bool(bool),
    Number(String),
    Text(String),
    Array(Vec<JsonValue>),
    Object(Vec<(String, JsonValue)>),
}

/// What the JSON reader makes of a text: the value, or `None` when the text is
/// not one well-formed JSON value.
pub uninterp spec fn json_parse_of(text: Seq<char>) -> Option<JsonValue>;

/// Relies on serde_json::from_str::<serde_json::Value>: it reads one JSON
/// value spanning the whole text, or fails; the outcome depends on the text
/// alone. The value is carried over by `from_serde_value`.
#[verifier::external_body]
pub fn parse_json(text: &str) -> (r: Option<JsonValue>)
    ensures
        r == json_parse_of(text@),
{
    serde_json::from_str::<serde_json::Value>(text).ok().map(from_serde_value)
}

/// Relies on the variants of serde_json::Value, and on serde_json::Number's
/// `to_string` for numbers: carries a value over to `JsonValue`, one variant
/// for one variant, members in the map's order.
#[verifier::external_body]
fn from_serde_value(v: serde_json::Value) -> JsonValue {
    match v {
        serde_json::Value::Null => JsonValue::Null,
        serde_json::Value::Bool(b) => JsonValue::Bool(b),
        serde_json::Value::Number(n) => JsonValue::Number(n.to_string()),
        serde_json::Value::String(s) => JsonValue::Text(s),
        serde_json::Value::Array(a) => JsonValue::Array(a.into_iter().map(from_serde_value).collect()),
        serde_json::Value::Object(o) => JsonValue::Object(
            o.into_iter().map(|(k, v)| (k, from_serde_value(v))).collect(),
        ),
    }
}

/// The value of the first member named `key`.
pub open spec fn field(fields: Seq<(String, JsonValue)>, key: Seq<char>) -> Option<JsonValue>
    decreases fields.len(),
{
    if fields.len() == 0 {
        None
    } else if fields[0].0@ == key {
        Some(fields[0].1)
    } else {
        field(fields.drop_first(), key)
    }
}

/// The string a value holds, if it is a string.
pub open spec fn as_text(v: Option<JsonValue>) -> Option<String> {
    match v {
        Some(JsonValue::Text(s)) => Some(s),
        _ => None,
    }
}

/// The value of the first member named `key`.
pub fn lookup<'a>(fields: &'a Vec<(String, JsonValue)>, key: &String) -> (r: Option<&'a JsonValue>)
    ensures
        r is None ==> field(fields@, key@) is None,
        r matches Some(v) ==> field(fields@, key@) == Some(*v),
{
    let n = fields.len();
    let mut i: usize = 0;
    proof {
        assert(fields@.subrange(0, n as int) == fields@);
    }
    while i < n
        invariant
            n == fields@.len(),
            0 <= i <= n,
            field(fields@, key@) == field(fields@.subrange(i as int, n as int), key@),
        decreases n - i,
    {
        proof {
            assert(fields@.subrange(i as int, n as int).drop_first() == fields@.subrange(
                i + 1,
                n as int,
            ));
            assert(fields@.subrange(i as int, n as int)[0] == fields@[i as int]);
        }
        if fields[i].0 == *key {
            return Some(&fields[i].1);
        }
        i += 1;
    }
    None
}

/// The string held by the first member named `key`, if it is a string.
pub fn text_field(fields: &Vec<(String, JsonValue)>, key: &String) -> (r: Option<String>)
    ensures
        r == as_text(field(fields@, key@)),
{
    match lookup(fields, key) {
        Some(JsonValue::Text(s)) => Some(s.clone()),
        _ => None,
    }
}

} // verus!
