//! Error taxonomy of the library.
//!
//! Only configuration loading on an explicitly requested path and the
//! transport layer can fail; request building and response normalization
//! are total.  Every failure is returned as a value of this type.

use vstd::prelude::*;
use vstd::string::StringExecFns;
use crate::decimal::push_u32;
use crate::decimal::spec_dec;

verus! {

/// Application-level error.
///
/// `MissingCredential` carries the name of the environment variable that
/// was absent or empty.  `ApiFailure` carries the HTTP status outside the
/// success range together with the best-effort body text of the response.
#[derive(Debug)]
pub enum AppError {
    /// A configuration file could not be parsed.
    Config(String),
    /// A generic API-side failure, described by a message.
    Api(String),
    /// The designated API-key environment variable is absent or empty.
    MissingCredential(String),
    /// The request could not be completed (DNS, TCP, TLS, timeout).
    Transport(String),
    /// The HTTP status was outside the success range.
    ApiFailure { status: u16, body: String },
    /// A successful-status body could not be parsed as JSON.
    MalformedResponse,
    /// A log or output file could not be written.
    Logging(String),
    /// The command line was used incorrectly.
    CliUsage(String),
    /// Anything that fits no other variant.
    Unknown(String),
}

/// The text that [`AppError::message`] renders for each error.
pub open spec fn spec_message(e: AppError) -> Seq<char> {
    match e {
        AppError::Config(m) => "Configuration error: "@ + m@,
        AppError::Api(m) => "API error: "@ + m@,
        AppError::MissingCredential(n) => "Missing environment variable: "@ + n@,
        AppError::Transport(m) => "Network request error: "@ + m@,
        AppError::ApiFailure { status, body } => "API request failed with status "@ + spec_dec(
            status as int,
        ) + ": "@ + body@,
        AppError::MalformedResponse => "Failed to parse the API response as JSON"@,
        AppError::Logging(m) => "Logging error: "@ + m@,
        AppError::CliUsage(m) => "Invalid CLI usage: "@ + m@,
        AppError::Unknown(m) => "Unknown error: "@ + m@,
    }
}

fn prefixed(prefix: &str, rest: &str) -> (r: String)
    ensures
        r@ == prefix@ + rest@,
{
    let mut s = prefix.to_owned();
    s.append(rest);
    s
}

impl AppError {
    /// A human-readable description of this error.
    pub fn message(&self) -> (r: String)
        ensures
            r@ == spec_message(*self),
    {
        match self {
            AppError::Config(m) => prefixed("Configuration error: ", m.as_str()),
            AppError::Api(m) => prefixed("API error: ", m.as_str()),
            AppError::MissingCredential(n) => prefixed(
                "Missing environment variable: ",
                n.as_str(),
            ),
            AppError::Transport(m) => prefixed("Network request error: ", m.as_str()),
            AppError::ApiFailure { status, body } => {
                let mut s = "API request failed with status ".to_owned();
                push_u32(&mut s, *status as u32);
                s.append(": ");
                s.append(body.as_str());
                s
            },
            AppError::MalformedResponse => "Failed to parse the API response as JSON".to_owned(),
            AppError::Logging(m) => prefixed("Logging error: ", m.as_str()),
            AppError::CliUsage(m) => prefixed("Invalid CLI usage: ", m.as_str()),
            AppError::Unknown(m) => prefixed("Unknown error: ", m.as_str()),
        }
    }

    /// Build a configuration error from a message.
    pub fn config(msg: String) -> (e: AppError)
        ensures
            e == AppError::Config(msg),
    {
        AppError::Config(msg)
    }

    /// Build an API error from a message.
    pub fn api(msg: String) -> (e: AppError)
        ensures
            e == AppError::Api(msg),
    {
        AppError::Api(msg)
    }

    /// Build a logging error from a message.
    pub fn logging(msg: String) -> (e: AppError)
        ensures
            e == AppError::Logging(msg),
    {
        AppError::Logging(msg)
    }

    /// Build a command-line usage error from a message.
    pub fn cli_usage(msg: String) -> (e: AppError)
        ensures
            e == AppError::CliUsage(msg),
    {
        AppError::CliUsage(msg)
    }

    /// Build an unclassified error from a message.
    pub fn unknown(msg: String) -> (e: AppError)
        ensures
            e == AppError::Unknown(msg),
    {
        AppError::Unknown(msg)
    }
}

} // verus!
