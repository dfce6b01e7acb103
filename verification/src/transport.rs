//! What the library and the HTTP client that serves it agree on: what a
//! request is sent with, and how it may end.

use crate::errors::CheckpwnError;
use vstd::prelude::*;

verus! {

/// The checkpwn UserAgent sent to HIBP.
pub const CHECKPWN_USER_AGENT: &'static str = "checkpwn - cargo utility tool for hibp";

/// Name of the header that carries the API key of an account or paste lookup.
pub const API_KEY_HEADER: &'static str = "hibp-api-key";

/// Name of the header by which a password lookup asks for padding entries.
pub const PADDING_HEADER: &'static str = "Add-Padding";

/// Value of the padding header.
pub const PADDING_VALUE: &'static str = "true";

/// Seconds after which an attempt to connect is given up.
pub const CONNECT_TIMEOUT_SECS: u64 = 10;

/// Milliseconds to wait before the requests of an account lookup. HIBP
/// accepts one request per 1500 milliseconds; the rest is a buffer.
pub const ACCOUNT_DELAY_MILLIS: u64 = 1600;

/// A GET request to send. Every request carries the user agent of the
/// library, and one header more.
pub struct Request<'a> {
    /// The URL to ask.
    pub route: String,
    /// Name of the header that goes with the request.
    pub header: &'static str,
    /// Value of that header.
    pub value: &'a str,
}

/// A response that the server sent.
#[derive(Clone, Copy, PartialEq, Eq, Structural, Debug)]
pub struct HttpResponse {
    /// Its status code.
    pub status: u16,
}

/// Why a request ended without a response that the client accepts.
#[derive(Clone, Copy, PartialEq, Eq, Structural, Debug)]
pub enum HttpError {
    /// The server sent a response, with this status code, which the client
    /// reports as an error.
    Status(u16),
    /// No response arrived: the name was not resolved, the connection was
    /// refused, the time ran out.
    Transport,
}

/// The status code that a request ended with, or `Network` where it ended
/// without any.
pub open spec fn status_of(response: Result<HttpResponse, HttpError>) -> Result<u16, CheckpwnError> {
    match response {
        Ok(resp) => Ok(resp.status),
        Err(HttpError::Status(code)) => Ok(code),
        Err(HttpError::Transport) => Err(CheckpwnError::Network),
    }
}

/// Match a Responses errors to codes and results that checkpwn can use. A
/// response with an error status still gives its status code; only a request
/// without a response gives `Network`.
pub fn response_to_status_codes(response: &Result<HttpResponse, HttpError>) -> (code: Result<
    u16,
    CheckpwnError,
>)
    ensures
        code == status_of(*response),
        code is Err <==> *response == Err::<HttpResponse, HttpError>(HttpError::Transport),
{
    match response {
        Ok(resp) => Ok(resp.status),
        Err(HttpError::Status(code)) => Ok(*code),
        Err(_) => Err(CheckpwnError::Network),
    }
}

} // verus!
