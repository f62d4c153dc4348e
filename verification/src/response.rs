//! What a response means: success by its status, and otherwise the API error
//! read from its body.
use vstd::prelude::*;
use crate::error::{SimpleLlmError, opt_text};
use crate::json::{JsonValue, parse_json, parsed_json, json_get, json_as_str, get, as_str};

verus! {

broadcast use vstd::string::group_string_axioms;

/// The message used when the body names none.
pub open spec fn unknown_error() -> Seq<char> {
    "Unknown error"@
}

/// The string at `v.outer.inner`, when there is one.
pub open spec fn nested_str(v: JsonValue, outer: Seq<char>, inner: Seq<char>) -> Option<Seq<char>> {
    match json_get(v, outer) {
        Some(e) => json_as_str(json_get(e, inner)),
        None => None,
    }
}

/// The string at `v.error.key`, or else at `v.key`.
pub open spec fn error_str(v: JsonValue, key: Seq<char>) -> Option<Seq<char>> {
    match nested_str(v, "error"@, key) {
        Some(s) => Some(s),
        None => json_as_str(json_get(v, key)),
    }
}

/// The message of an error response with body `body`, which parses to
/// `parsed`: `error.message`, else `message`, else "Unknown error" for a JSON
/// body; the body itself, or "Unknown error" when it is empty, for any other.
pub open spec fn error_message(body: Seq<char>, parsed: Option<JsonValue>) -> Seq<char> {
    match parsed {
        Some(v) => match error_str(v, "message"@) {
            Some(m) => m,
            None => unknown_error(),
        },
        None => if body.len() == 0 {
            unknown_error()
        } else {
            body
        },
    }
}

/// The code of an error response: `error.code`, else `code`, of a JSON body;
/// none for any other body.
pub open spec fn error_code(parsed: Option<JsonValue>) -> Option<Seq<char>> {
    match parsed {
        Some(v) => error_str(v, "code"@),
        None => None,
    }
}

/// The string member `key` of `v.error`, or else of `v`.
fn find_error_str<'a>(v: &'a JsonValue, key: &str) -> (r: Option<&'a String>)
    ensures
        opt_text(match r {
            Some(s) => Some(*s),
            None => None,
        }) == error_str(*v, key@),
{
    let inner = match get(v, "error") {
        Some(e) => as_str(get(e, key)),
        None => None,
    };
    match inner {
        Some(s) => Some(s),
        None => as_str(get(v, key)),
    }
}

/// The message and code of an error response with body `body`, given what
/// parsing `body` as JSON gave (`None` where it failed).
pub fn error_fields(body: &str, parsed: Option<&JsonValue>) -> (r: (String, Option<String>))
    ensures
        r.0@ == error_message(body@, match parsed {
            Some(v) => Some(*v),
            None => None,
        }),
        opt_text(r.1) == error_code(match parsed {
            Some(v) => Some(*v),
            None => None,
        }),
{
    match parsed {
        Some(v) => {
            let message = match find_error_str(v, "message") {
                Some(m) => m.clone(),
                None => "Unknown error".to_string(),
            };
            let code = match find_error_str(v, "code") {
                Some(c) => Some(c.clone()),
                None => None,
            };
            (message, code)
        },
        None => {
            if body.is_empty() {
                ("Unknown error".to_string(), None)
            } else {
                (body.to_string(), None)
            }
        },
    }
}

/// The message and code of an error response with body `body`.
pub fn parse_error_body(body: &str) -> (r: (String, Option<String>))
    ensures
        r.0@ == error_message(body@, parsed_json(body@)),
        opt_text(r.1) == error_code(parsed_json(body@)),
{
    let parsed = parse_json(body);
    match &parsed {
        Ok(v) => error_fields(body, Some(v)),
        Err(_) => error_fields(body, None),
    }
}

/// Whether a response with status `status` succeeded (its status is 2xx).
pub fn is_success_status(status: u16) -> (r: bool)
    ensures
        r == (200 <= status <= 299),
{
    200 <= status && status <= 299
}

/// The error for a response with the failing status `status` and body `body`.
pub fn api_error(status: u16, body: &str) -> (e: SimpleLlmError)
    ensures
        e matches SimpleLlmError::Api { message, status: s, code } && s == status && message@
            == error_message(body@, parsed_json(body@)) && opt_text(code) == error_code(
            parsed_json(body@),
        ),
{
    let (message, code) = parse_error_body(body);
    SimpleLlmError::Api { message, status, code }
}

} // verus!
