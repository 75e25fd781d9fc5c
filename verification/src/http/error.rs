//! Errors of the Alpaca HTTP client and how venue responses map onto them.

use vstd::prelude::*;

use crate::common::text::{decimal, u64_to_string};

verus! {

/// Errors of the Alpaca HTTP client.
#[derive(Debug)]
pub enum AlpacaHttpError {
    /// Transport layer errors (network, connection issues).
    Transport(String),
    /// JSON serialization/deserialization errors.
    Serde(serde_json::Error),
    /// Authentication errors (missing or rejected credentials).
    Auth(String),
    /// Rate limiting errors.
    RateLimit { retry_after_ms: Option<u64> },
    /// Bad request errors (client-side invalid payload or parameters).
    BadRequest(String),
    /// Venue-side errors reported by Alpaca.
    Venue(String),
    /// Request timeout.
    Timeout,
    /// Message decoding/parsing errors.
    Decode(String),
    /// HTTP errors with a status code that has no more specific mapping.
    Http { status: u16, message: String },
}

/// The error classes worth retrying: transient transport failures, timeouts, rate limiting and
/// server-side errors.
pub open spec fn spec_is_retryable(e: &AlpacaHttpError) -> bool {
    ||| e is Transport
    ||| e is Timeout
    ||| e is RateLimit
    ||| e is Venue
}

/// What `String::from_utf8_lossy` makes of a byte string.
pub uninterp spec fn utf8_lossy(bytes: Seq<u8>) -> Seq<char>;

/// Decodes bytes as UTF-8, replacing invalid sequences (`String::from_utf8_lossy`).
///
/// The result is the named function of the bytes, and a valid UTF-8 string decodes to its
/// characters unchanged.
#[verifier::external_body]
fn from_utf8_lossy(bytes: &[u8]) -> (res: String)
    ensures
        res@ == utf8_lossy(bytes@),
        vstd::utf8::valid_utf8(bytes@) ==> res@ == vstd::utf8::decode_utf8(bytes@),
{
    String::from_utf8_lossy(bytes).into_owned()
}

/// `HTTP <status>: <message>`.
pub open spec fn status_message(status: u16, message: Seq<char>) -> Seq<char> {
    "HTTP "@ + decimal(status as nat) + ": "@ + message
}

/// The error class a status code maps to.
///
/// Alpaca reports request validation failures as `422 Unprocessable Entity` rather than `400`,
/// so both map to a bad request and are never retried.
pub open spec fn spec_from_http_status(status: u16, message: Seq<char>, e: AlpacaHttpError) -> bool {
        if status == 400 || status == 422 {
            e matches AlpacaHttpError::BadRequest(m) && m@ == status_message(status, message)
        } else if status == 401 || status == 403 {
            e matches AlpacaHttpError::Auth(m) && m@ == status_message(status, message)
        } else if status == 429 {
            e matches AlpacaHttpError::RateLimit { retry_after_ms } && retry_after_ms is None
        } else if 500 <= status <= 599 {
            e matches AlpacaHttpError::Venue(m) && m@ == status_message(status, message)
        } else {
            e matches AlpacaHttpError::Http { status: s, message: m } && s == status && m@ == message
        }
}

impl AlpacaHttpError {
    /// Creates a transport error.
    pub fn transport(msg: &str) -> (res: Self)
        ensures
            res matches AlpacaHttpError::Transport(m) && m@ == msg@,
    {
        AlpacaHttpError::Transport(String::from_str(msg))
    }

    /// Creates an auth error.
    pub fn auth(msg: &str) -> (res: Self)
        ensures
            res matches AlpacaHttpError::Auth(m) && m@ == msg@,
    {
        AlpacaHttpError::Auth(String::from_str(msg))
    }

    /// Creates a rate limit error.
    pub fn rate_limit(retry_after_ms: Option<u64>) -> (res: Self)
        ensures
            res matches AlpacaHttpError::RateLimit { retry_after_ms: r } && r == retry_after_ms,
    {
        AlpacaHttpError::RateLimit { retry_after_ms }
    }

    /// Creates a bad request error.
    pub fn bad_request(msg: &str) -> (res: Self)
        ensures
            res matches AlpacaHttpError::BadRequest(m) && m@ == msg@,
    {
        AlpacaHttpError::BadRequest(String::from_str(msg))
    }

    /// Creates a venue error.
    pub fn venue(msg: &str) -> (res: Self)
        ensures
            res matches AlpacaHttpError::Venue(m) && m@ == msg@,
    {
        AlpacaHttpError::Venue(String::from_str(msg))
    }

    /// Creates a decode error.
    pub fn decode(msg: &str) -> (res: Self)
        ensures
            res matches AlpacaHttpError::Decode(m) && m@ == msg@,
    {
        AlpacaHttpError::Decode(String::from_str(msg))
    }

    /// Creates an HTTP error.
    pub fn http(status: u16, message: &str) -> (res: Self)
        ensures
            res matches AlpacaHttpError::Http { status: s, message: m } && s == status && m@ == message@,
    {
        AlpacaHttpError::Http { status, message: String::from_str(message) }
    }

    /// Creates an error from an HTTP status code and response body.
    pub fn from_http_status(status: u16, body: &[u8]) -> (res: Self)
        ensures
            spec_from_http_status(status, utf8_lossy(body@), res),
    {
        let message = from_utf8_lossy(body);
        if status == 429 {
            return Self::rate_limit(None);
        }
        if !(status == 400 || status == 422 || status == 401 || status == 403 || (500 <= status
            && status <= 599)) {
            return AlpacaHttpError::Http { status, message };
        }
        let mut text = String::from_str("HTTP ");
        text.append(u64_to_string(status as u64).as_str());
        text.append(": ");
        text.append(message.as_str());
        assert(text@ == status_message(status, utf8_lossy(body@)));
        if status == 400 || status == 422 {
            AlpacaHttpError::BadRequest(text)
        } else if status == 401 || status == 403 {
            AlpacaHttpError::Auth(text)
        } else {
            AlpacaHttpError::Venue(text)
        }
    }

    /// Returns true when the failure is transient and the request may be retried.
    ///
    /// Retrying is only safe for idempotent requests; callers must gate on the HTTP method as
    /// well as on this predicate.
    pub fn is_retryable(&self) -> (res: bool)
        ensures
            res == spec_is_retryable(self),
    {
        matches!(self, Self::Transport(_) | Self::Timeout | Self::RateLimit { .. } | Self::Venue(_))
    }
}

/// A status response is worth retrying exactly when it is rate limiting or a server error;
/// validation failures (400, 422) and authentication failures are never retried.
pub proof fn lemma_retryable_statuses(status: u16, message: Seq<char>, e: AlpacaHttpError)
    requires
        spec_from_http_status(status, message, e),
    ensures
        spec_is_retryable(&e) <==> (status == 429 || (500 <= status <= 599)),
{
}

} // verus!
