use vstd::prelude::*;
use vstd::string::*;
use crate::status_is_success;
use crate::text::{spec_dec_digits, dec_digits, string_from_chars};

verus! {

/// The failures a stream can end with. Each is surfaced both as the
/// terminal `Error` event and as the operation's own error result; a
/// malformed frame is never one of these, and cancellation ends a
/// stream with `Done`, not with an error.
#[derive(Debug)]
pub enum StreamError {
    /// No API key was resolvable from any source; no network call is made.
    MissingCredential,
    /// The HTTP client could not be constructed.
    ClientConstruction { detail: String },
    /// The connection could not be established.
    Connect { detail: String },
    /// The endpoint answered with a non-success status; carries the
    /// status and the diagnostic body text.
    HttpStatus { status: u16, body: String },
    /// The response byte stream failed mid-way.
    TransportRead { detail: String },
}

impl StreamError {
    /// The diagnostic text of this error.
    pub open spec fn spec_message(&self) -> Seq<char> {
        match self {
            StreamError::MissingCredential => "no API key is configured"@,
            StreamError::ClientConstruction { detail } => "failed to build the HTTP client: "@
                + detail@,
            StreamError::Connect { detail } => "failed to reach the completion endpoint: "@
                + detail@,
            StreamError::HttpStatus { status, body } => spec_dec_digits(*status as int) + ": "@
                + body@,
            StreamError::TransportRead { detail } => "stream read failed: "@ + detail@,
        }
    }

    /// Renders the diagnostic text.
    pub fn message(&self) -> (r: String)
        ensures
            r@ == self.spec_message(),
    {
        match self {
            StreamError::MissingCredential => String::from_str("no API key is configured"),
            StreamError::ClientConstruction { detail } => {
                let mut s = String::from_str("failed to build the HTTP client: ");
                s.append(detail.as_str());
                s
            },
            StreamError::Connect { detail } => {
                let mut s = String::from_str("failed to reach the completion endpoint: ");
                s.append(detail.as_str());
                s
            },
            StreamError::HttpStatus { status, body } => {
                let digits = dec_digits(*status);
                let mut s = string_from_chars(&digits);
                s.append(": ");
                s.append(body.as_str());
                s
            },
            StreamError::TransportRead { detail } => {
                let mut s = String::from_str("stream read failed: ");
                s.append(detail.as_str());
                s
            },
        }
    }
}

/// The outcome of the synchronous connection test, given the HTTP
/// answer of the endpoint: success exactly on a 2xx status, and the
/// status error — status and diagnostic body — otherwise.
pub fn test_connection_outcome(status: u16, body: String) -> (r: Result<String, StreamError>)
    ensures
        (r is Ok) == (200 <= status < 300),
        r matches Ok(m) ==> m@ == "API connection succeeded"@,
        r matches Err(e) ==> (e matches StreamError::HttpStatus { status: s, body: b } && s
            == status && b == body),
{
    if status_is_success(status) {
        Ok(String::from_str("API connection succeeded"))
    } else {
        Err(StreamError::HttpStatus { status, body })
    }
}

} // verus!
