//! The JSON document model that error bodies are read through, and the
//! parse that fills it.
use vstd::prelude::*;
use crate::text::{chars_equal, chars_of};

verus! {

broadcast use vstd::string::group_string_axioms;

/// `serde_json::Value`, held only to be converted.
#[verifier::external_type_specification]
#[verifier::external_body]
pub struct ExSerdeJsonValue(serde_json::Value);

/// `serde_json::Error`, the error of a failed parse.
#[verifier::external_type_specification]
#[verifier::external_body]
pub struct ExSerdeJsonError(serde_json::Error);

/// A JSON document, one variant for each variant of `serde_json::Value`.
/// A number keeps the text that `serde_json` writes for it; an object keeps
/// its members as key and value pairs.
#[derive(Debug)]
pub enum JsonValue {
    Null,
    Bool(bool),
    Number(String),
    Str(String),
    Array(Vec<JsonValue>),
    Object(Vec<(String, JsonValue)>),
}

/// The document that `serde_json::from_str::<serde_json::Value>` makes of
/// `text`, or `None` where it reports an error.
pub uninterp spec fn parsed_json(text: Seq<char>) -> Option<JsonValue>;

/// Converts a `serde_json::Value` into a `JsonValue`, variant for variant
/// (a number through its `Display` text, an object member by member). It has
/// no contract of its own: `parse_json`, its one caller, names the parse and
/// this conversion together as `parsed_json`.
#[verifier::external_body]
fn json_from_serde(v: serde_json::Value) -> JsonValue {
    match v {
        serde_json::Value::Null => JsonValue::Null,
        serde_json::Value::Bool(b) => JsonValue::Bool(b),
        serde_json::Value::Number(n) => JsonValue::Number(n.to_string()),
        serde_json::Value::String(s) => JsonValue::Str(s),
        serde_json::Value::Array(a) => JsonValue::Array(a.into_iter().map(json_from_serde).collect()),
        serde_json::Value::Object(m) => JsonValue::Object(
            m.into_iter().map(|(k, x)| (k, json_from_serde(x))).collect(),
        ),
    }
}

/// `serde_json::from_str::<serde_json::Value>`, its document converted by
/// `json_from_serde`. The result is named `parsed_json`: it succeeds exactly
/// where that name is `Some`, and then gives that document.
#[verifier::external_body]
pub(crate) fn parse_json(text: &str) -> (r: Result<JsonValue, serde_json::Error>)
    ensures
        r is Ok <==> parsed_json(text@) is Some,
        r matches Ok(v) ==> parsed_json(text@) == Some(v),
{
    serde_json::from_str::<serde_json::Value>(text).map(json_from_serde)
}

/// The value of the first member of `fields` named `key`.
pub open spec fn member(fields: Seq<(String, JsonValue)>, key: Seq<char>) -> Option<JsonValue>
    decreases fields.len(),
{
    if fields.len() == 0 {
        None
    } else if fields[0].0@ == key {
        Some(fields[0].1)
    } else {
        member(fields.drop_first(), key)
    }
}

/// What `Value::get(key)` gives: the member `key` of an object, and `None`
/// for any other kind of value.
pub open spec fn json_get(v: JsonValue, key: Seq<char>) -> Option<JsonValue> {
    match v {
        JsonValue::Object(fields) => member(fields@, key),
        _ => None,
    }
}

/// What `Value::as_str` gives of an optional value.
pub open spec fn json_as_str(v: Option<JsonValue>) -> Option<Seq<char>> {
    match v {
        Some(JsonValue::Str(s)) => Some(s@),
        _ => None,
    }
}

/// The member `key` of `v`, when `v` is an object that has it.
pub fn get<'a>(v: &'a JsonValue, key: &str) -> (r: Option<&'a JsonValue>)
    ensures
        match r {
            Some(x) => json_get(*v, key@) == Some(*x),
            None => json_get(*v, key@) is None,
        },
{
    match v {
        JsonValue::Object(fields) => {
            let k = chars_of(key);
            let mut i: usize = 0;
            assert(fields@.skip(0) =~= fields@);
            while i < fields.len()
                invariant
                    i <= fields.len(),
                    k@ == key@,
                    json_get(*v, key@) == member(fields@.skip(i as int), key@),
                decreases fields.len() - i,
            {
                let name = chars_of(fields[i].0.as_str());
                if chars_equal(&name, &k) {
                    let ghost rest = fields@.skip(i as int);
                    assert(rest[0] == fields@[i as int]);
                    assert(rest[0].0@ == key@);
                    assert(member(rest, key@) == Some(rest[0].1));
                    return Some(&fields[i].1);
                }
                assert(fields@.skip(i as int).drop_first() =~= fields@.skip(i + 1));
                i = i + 1;
            }
            None
        },
        _ => None,
    }
}

/// The text of `v`, when it is a string.
pub fn as_str(v: Option<&JsonValue>) -> (r: Option<&String>)
    ensures
        match r {
            Some(s) => json_as_str(match v {
                Some(x) => Some(*x),
                None => None,
            }) == Some(s@),
            None => json_as_str(match v {
                Some(x) => Some(*x),
                None => None,
            }) is None,
        },
{
    match v {
        Some(JsonValue::Str(s)) => Some(s),
        _ => None,
    }
}

} // verus!
