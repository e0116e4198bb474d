//! Transport result classification: deciding success or failure of an HTTP
//! exchange before any caller-level decoding happens.
//!
//! A completed exchange is classified by status code: 2xx, or any status the
//! caller explicitly tolerates, is a success regardless of body shape.  Any
//! other status is a protocol failure whose message is extracted best-effort:
//! the `message` field if the body is a JSON object carrying one, the raw
//! body text otherwise.  I/O-level failures never reach this layer's rules:
//! the caller wraps them as transport failures verbatim, with no retry.

use vstd::prelude::*;

verus! {

/// A buffered HTTP response: status code and body text, read once.
pub struct Response {
    pub status: u16,
    pub body: String,
}

/// The classified result of one HTTP exchange.
pub enum Outcome {
    /// The exchange completed with a 2xx or tolerated status.
    Success(Response),
    /// The exchange itself failed (connection, timeout, TLS); carries the
    /// underlying error's message.
    TransportFailure(String),
    /// The server answered with a non-success, non-tolerated status; carries
    /// the status and the extracted error message.
    ProtocolFailure(u16, String),
}

/// The error taxonomy mirrored by `Result`-returning callers: a transport
/// failure, a protocol failure, or a decode failure carrying the parse error
/// and the raw body text.
#[derive(Debug)]
pub enum Error {
    Request(String),
    Response(u16, String),
    DeserializeContent(String, String),
}

/// The `message` field of a response body, when the body is a JSON object
/// with a string `message` field, as `serde_json` parses it.
pub uninterp spec fn message_of(body: Seq<char>) -> Option<Seq<char>>;

/// Relies on `serde_json::from_str`: parsing is a pure function of the input
/// text; the result is the `message` field when the body is a JSON object
/// holding a string under that key.
#[verifier::external_body]
fn extract_message(body: &str) -> (r: Option<String>)
    ensures
        r is Some <==> message_of(body@) is Some,
        r matches Some(m) ==> message_of(body@) == Some(m@),
{
    match serde_json::from_str::<serde_json::Value>(body) {
        Ok(v) => match v.get("message") {
            Some(serde_json::Value::String(m)) => Some(m.clone()),
            _ => None,
        },
        Err(_) => None,
    }
}

/// A status code in the 2xx range.
pub open spec fn is_success_status(status: u16) -> bool {
    200 <= status < 300
}

/// The error message drawn from a failure body: the `message` field if the
/// body parses as a JSON object with one, the raw body text verbatim
/// otherwise.
pub open spec fn extracted_error_message(body: Seq<char>) -> Seq<char> {
    match message_of(body) {
        Some(m) => m,
        None => body,
    }
}

fn contains_status(statuses: &Vec<u16>, status: u16) -> (r: bool)
    ensures
        r == statuses@.contains(status),
{
    let len = statuses.len();
    for i in 0..len
        invariant
            len == statuses@.len(),
            forall|k: int| 0 <= k < i ==> statuses@[k] != status,
    {
        if statuses[i] == status {
            return true;
        }
    }
    false
}

/// Classifies a completed HTTP exchange.  A 2xx status, or one in the
/// caller's tolerated list, is a success whatever the body holds — including
/// an empty body.  Every other status is a protocol failure with the
/// best-effort extracted message.
pub fn classify(status: u16, body: String, tolerated: &Vec<u16>) -> (r: Outcome)
    ensures
        is_success_status(status) || tolerated@.contains(status) ==> (r matches Outcome::Success(
            resp,
        ) && resp.status == status && resp.body@ == body@),
        !(is_success_status(status) || tolerated@.contains(status)) ==> (r
            matches Outcome::ProtocolFailure(st, m) && st == status && m@
            == extracted_error_message(body@)),
{
    if (200 <= status && status < 300) || contains_status(tolerated, status) {
        Outcome::Success(Response { status, body })
    } else {
        match extract_message(body.as_str()) {
            Some(m) => Outcome::ProtocolFailure(status, m),
            None => Outcome::ProtocolFailure(status, body),
        }
    }
}

impl Outcome {
    /// Turns an outcome into the caller-facing `Result`: a success yields the
    /// response, a transport failure a `Request` error, a protocol failure a
    /// `Response` error.
    pub fn into_result(self) -> (r: Result<Response, Error>)
        ensures
            self matches Outcome::Success(resp) ==> (r matches Ok(out) && out == resp),
            self matches Outcome::TransportFailure(e) ==> (r matches Err(Error::Request(m)) && m
                == e),
            self matches Outcome::ProtocolFailure(st, msg) ==> (r matches Err(
                Error::Response(s, m),
            ) && s == st && m == msg),
    {
        match self {
            Outcome::Success(resp) => Ok(resp),
            Outcome::TransportFailure(e) => Err(Error::Request(e)),
            Outcome::ProtocolFailure(st, msg) => Err(Error::Response(st, msg)),
        }
    }
}

} // verus!
