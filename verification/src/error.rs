//! The error type of the client.
use vstd::prelude::*;

verus! {

/// `reqwest::Error`, the error of the HTTP layer.
#[verifier::external_type_specification]
#[verifier::external_body]
pub struct ExReqwestError(reqwest::Error);

/// Everything that can go wrong in a call of the API.
#[derive(Debug)]
pub enum SimpleLlmError {
    /// The server answered with a status outside 200..=299.
    Api { message: String, status: u16, code: Option<String> },
    /// The HTTP layer failed: connection, TLS, timeout or body decoding.
    Http(reqwest::Error),
    /// A JSON document could not be read or written.
    Json(serde_json::Error),
    /// Neither the configuration nor the environment holds a non-empty key.
    MissingApiKey,
    /// A streamed chunk could not be decoded; the text is the decoder's message.
    SseParse(String),
}

/// The text of an optional string.
pub open spec fn opt_text(o: Option<String>) -> Option<Seq<char>> {
    match o {
        Some(s) => Some(s@),
        None => None,
    }
}

} // verus!
