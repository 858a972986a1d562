//! Turns what one request brought back into a feed snapshot or a single error value.

use vstd::prelude::*;
use crate::entry::Entry;
use crate::text::{decimal, decimal_text};

verus! {

/// Why a successful response's body is not a feed.
#[derive(Debug)]
pub enum PayloadError {
    /// The body is not valid JSON.
    Syntax,
    /// The body is JSON but lacks the expected `data.children[]` shape.
    Shape,
    /// Any other failure of the decoder, with its message.
    Other(String),
}

/// What one request brought back, as the transport and the decoder saw it.
#[derive(Debug)]
pub enum Response {
    /// A 2xx response, with its body decoded into entries or the decoder's failure.
    Success(Result<Vec<Entry>, PayloadError>),
    /// A non-2xx response: its status code, and the `reason` string of its body
    /// when the body is a JSON object holding one.
    Status(u16, Option<String>),
    /// No response: the transport's message, if it gave one.
    Transport(Option<String>),
}

/// A fetch that yielded no feed.
#[derive(Debug)]
pub enum FetchError {
    /// The transport failed (DNS, connection, timeout).
    Network(Option<String>),
    /// A non-2xx response, with its code and a reason or the fallback.
    Http(u16, String),
    /// A 2xx response whose body is not a feed.
    Malformed(PayloadError),
}

/// The reason given when a failed response names none.
pub open spec fn unknown_reason() -> Seq<char> {
    "Unknown reason"@
}

/// Classifies what one request brought back: a feed on a decodable 2xx response,
/// else the one error that describes the failure.
pub fn fetch_result(resp: Response) -> (r: Result<Vec<Entry>, FetchError>)
    ensures
        match resp {
            Response::Success(Ok(entries)) => r == Ok::<Vec<Entry>, FetchError>(entries),
            Response::Success(Err(e)) => r == Err::<Vec<Entry>, FetchError>(FetchError::Malformed(e)),
            Response::Status(code, Some(reason)) => r == Err::<Vec<Entry>, FetchError>(
                FetchError::Http(code, reason),
            ),
            Response::Status(code, None) => r is Err && r->Err_0 is Http && r->Err_0->Http_0 == code
                && r->Err_0->Http_1@ == unknown_reason(),
            Response::Transport(m) => r == Err::<Vec<Entry>, FetchError>(FetchError::Network(m)),
        },
{
    match resp {
        Response::Success(Ok(entries)) => Ok(entries),
        Response::Success(Err(e)) => Err(FetchError::Malformed(e)),
        Response::Status(code, reason) => {
            let reason = match reason {
                Some(reason) => reason,
                None => String::from_str("Unknown reason"),
            };
            Err(FetchError::Http(code, reason))
        },
        Response::Transport(m) => Err(FetchError::Network(m)),
    }
}

impl FetchError {
    /// The text that describes this error to a user.
    pub open spec fn message_view(&self) -> Seq<char> {
        match self {
            FetchError::Network(Some(m)) => "Network error: "@ + m@,
            FetchError::Network(None) => "Unknown network error occurred."@,
            FetchError::Http(code, reason) => "HTTP Error "@ + decimal(*code as nat) + " - "@
                + reason@,
            FetchError::Malformed(PayloadError::Syntax) => "Syntax error in JSON"@,
            FetchError::Malformed(PayloadError::Shape) =>
                "JSON structure does not match expected type"@,
            FetchError::Malformed(PayloadError::Other(m)) => "Unknown JSON error: "@ + m@,
        }
    }

    /// Describes this error to a user; an HTTP error names its code and reason.
    pub fn message(&self) -> (r: String)
        ensures
            r@ == self.message_view(),
    {
        match self {
            FetchError::Network(Some(m)) => {
                let mut r = String::from_str("Network error: ");
                r.append(m.as_str());
                r
            },
            FetchError::Network(None) => String::from_str("Unknown network error occurred."),
            FetchError::Http(code, reason) => {
                let mut r = String::from_str("HTTP Error ");
                let digits = decimal_text(*code as u64);
                r.append(digits.as_str());
                r.append(" - ");
                r.append(reason.as_str());
                r
            },
            FetchError::Malformed(PayloadError::Syntax) => String::from_str("Syntax error in JSON"),
            FetchError::Malformed(PayloadError::Shape) => String::from_str(
                "JSON structure does not match expected type",
            ),
            FetchError::Malformed(PayloadError::Other(m)) => {
                let mut r = String::from_str("Unknown JSON error: ");
                r.append(m.as_str());
                r
            },
        }
    }
}

} // verus!
