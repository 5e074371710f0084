//! Error taxonomy for the token exchange and the stream session.
//!
//! Every failure is reported to the caller as a value of one of these closed
//! enums; nothing is logged and swallowed inside the library. Each carries
//! enough to tell the failure categories apart, and the parse failure carries
//! the raw response body, since token-endpoint failures are otherwise opaque.

use vstd::prelude::*;
use vstd::string::*;

verus! {

/// A required configuration secret is missing. Fatal: the caller must not
/// attempt any network activity with an incomplete configuration.
#[derive(Debug, Clone, PartialEq, Eq)]
pub enum ConfigError {
    MissingClientId,
    MissingClientSecret,
}

/// A failure of the token exchange. `Transport` carries the message of the
/// underlying network failure, `Status` the non-success HTTP status code,
/// and `Parse` the raw response body that did not have the expected shape.
#[derive(Debug, Clone, PartialEq, Eq)]
pub enum TokenError {
    Transport(String),
    Status(u16),
    Parse(String),
}

/// A failure of a stream session. `Connect` carries the message of a failure
/// to establish the authenticated connection; `Read` the message of a failed
/// mid-stream read, surfaced as one error item in the record sequence.
#[derive(Debug, Clone, PartialEq, Eq)]
pub enum StreamError {
    Connect(String),
    Read(String),
}

impl ConfigError {
    /// Diagnostic text naming the missing secret.
    pub fn message(&self) -> (r: String)
        ensures
            self is MissingClientId ==> r@ == "configuration error: client id must be set"@,
            self is MissingClientSecret ==> r@ == "configuration error: client secret must be set"@,
    {
        match self {
            ConfigError::MissingClientId => String::from_str(
                "configuration error: client id must be set",
            ),
            ConfigError::MissingClientSecret => String::from_str(
                "configuration error: client secret must be set",
            ),
        }
    }
}

impl TokenError {
    /// Diagnostic text for the failure. For a parse failure it contains the
    /// raw response body after a fixed prefix.
    pub fn message(&self) -> (r: String)
        ensures
            self matches TokenError::Transport(m) ==> r@ == "token request failed: "@ + m@,
            self matches TokenError::Status(_) ==> r@
                == "token endpoint returned a non-success status"@,
            self matches TokenError::Parse(b) ==> r@
                == "failed to get a token from response '"@ + b@ + "'"@,
    {
        match self {
            TokenError::Transport(m) => String::from_str("token request failed: ").concat(
                m.as_str(),
            ),
            TokenError::Status(_) => String::from_str(
                "token endpoint returned a non-success status",
            ),
            TokenError::Parse(b) => String::from_str("failed to get a token from response '")
                .concat(b.as_str()).concat("'"),
        }
    }
}

impl StreamError {
    /// Diagnostic text for the failure, with the underlying message.
    pub fn message(&self) -> (r: String)
        ensures
            self matches StreamError::Connect(m) ==> r@ == "failed to open the stream: "@ + m@,
            self matches StreamError::Read(m) ==> r@ == "failed to read from the stream: "@ + m@,
    {
        match self {
            StreamError::Connect(m) => String::from_str("failed to open the stream: ").concat(
                m.as_str(),
            ),
            StreamError::Read(m) => String::from_str("failed to read from the stream: ").concat(
                m.as_str(),
            ),
        }
    }
}

} // verus!
