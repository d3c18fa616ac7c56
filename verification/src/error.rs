//! Errors of the library.
use vstd::prelude::*;
use std::time::Duration;
use crate::text::{decimal, push_decimal, push_str, starts_with};

verus! {

/// `std::io::Error`, carried through opaquely.
#[verifier::external_type_specification]
#[verifier::external_body]
pub struct ExIoError(std::io::Error);

/// `reqwest::Error`, carried through opaquely.
#[verifier::external_type_specification]
#[verifier::external_body]
pub struct ExReqwestError(reqwest::Error);

/// `serde_json::Error`, carried through opaquely.
#[verifier::external_type_specification]
#[verifier::external_body]
pub struct ExSerdeJsonError(serde_json::Error);

/// A failure reported by the Modrinth API.
#[derive(Debug)]
pub enum ApiError {
    /// Too many requests, and the retries ran out.
    RateLimited { retry_after: Option<Duration> },
    /// The API answered with an unsuccessful status.
    ApiError { status: u16, message: String },
    /// The API answered 404.
    NotFound(String),
    /// The request could not be made.
    RequestFailed(String),
}

/// Any failure of the library.
#[derive(Debug)]
pub enum CoreError {
    Api(ApiError),
    Scan(String),
    Update(String),
    Config(String),
    Io(std::io::Error),
    Http(reqwest::Error),
    Serde(serde_json::Error),
    HashMismatch { filename: String, expected: String, actual: String },
}

/// Calls `Display::fmt` of `std::io::Error` (through `to_string`). The text
/// comes from the operating system for most errors, so nothing is stated of it.
#[verifier::external_body]
fn io_error_text(e: &std::io::Error) -> String {
    e.to_string()
}

/// Calls `Display::fmt` of `reqwest::Error` (through `to_string`). The text
/// depends on the inside of the error, which the library does not see, so
/// nothing is stated of it.
#[verifier::external_body]
fn reqwest_error_text(e: &reqwest::Error) -> String {
    e.to_string()
}

/// Calls `Display::fmt` of `serde_json::Error` (through `to_string`). The text
/// depends on the inside of the error, which the library does not see, so
/// nothing is stated of it.
#[verifier::external_body]
fn serde_json_error_text(e: &serde_json::Error) -> String {
    e.to_string()
}

/// Calls `Debug::fmt` of `Option<Duration>` (through `format!("{:?}")`).
/// `None` prints as `None`; of a duration's rendering nothing is stated.
#[verifier::external_body]
fn retry_after_text(d: &Option<Duration>) -> (res: String)
    ensures
        d is None ==> res@ == "None"@,
{
    format!("{:?}", d)
}

/// Whether `text` is the message of `e`.
pub open spec fn describes_api_error(e: ApiError, text: Seq<char>) -> bool {
    match e {
        ApiError::RateLimited { retry_after } => match retry_after {
            None => text == "Rate limited. Retry after None"@,
            Some(_) => starts_with(text, "Rate limited. Retry after "@),
        },
        ApiError::ApiError { status, message } => text == "API returned error "@ + decimal(status as nat)
            + ": "@ + message@,
        ApiError::NotFound(m) => text == "Not found: "@ + m@,
        ApiError::RequestFailed(m) => text == "Request failed: "@ + m@,
    }
}

/// Whether `text` is the message of `e`.
pub open spec fn describes_core_error(e: CoreError, text: Seq<char>) -> bool {
    match e {
        CoreError::Api(a) => starts_with(text, "API error: "@) && describes_api_error(
            a,
            text.skip("API error: "@.len() as int),
        ),
        CoreError::Scan(m) => text == "Scan error: "@ + m@,
        CoreError::Update(m) => text == "Update error: "@ + m@,
        CoreError::Config(m) => text == "Config error: "@ + m@,
        CoreError::Io(_) => starts_with(text, "IO error: "@),
        CoreError::Http(_) => starts_with(text, "HTTP error: "@),
        CoreError::Serde(_) => starts_with(text, "Serialization error: "@),
        CoreError::HashMismatch { filename, expected, actual } => text == "Hash verification failed for "@
            + filename@ + ": expected "@ + expected@ + ", got "@ + actual@,
    }
}

impl ApiError {
    /// The error's message, as it is shown to the user.
    pub fn message(&self) -> (res: String)
        ensures
            describes_api_error(*self, res@),
    {
        let mut s = String::new();
        match self {
            ApiError::RateLimited { retry_after } => {
                push_str(&mut s, "Rate limited. Retry after ");
                let t = retry_after_text(retry_after);
                push_str(&mut s, t.as_str());
                assert(s@.subrange(0, "Rate limited. Retry after "@.len() as int) =~= "Rate limited. Retry after "@);
                proof {
                    if *retry_after is None {
                        reveal_strlit("Rate limited. Retry after ");
                        reveal_strlit("None");
                        reveal_strlit("Rate limited. Retry after None");
                        assert(s@ =~= "Rate limited. Retry after None"@);
                    }
                }
            },
            ApiError::ApiError { status, message } => {
                push_str(&mut s, "API returned error ");
                push_decimal(&mut s, *status as u64);
                push_str(&mut s, ": ");
                push_str(&mut s, message.as_str());
            },
            ApiError::NotFound(m) => {
                push_str(&mut s, "Not found: ");
                push_str(&mut s, m.as_str());
            },
            ApiError::RequestFailed(m) => {
                push_str(&mut s, "Request failed: ");
                push_str(&mut s, m.as_str());
            },
        }
        s
    }
}

impl CoreError {
    /// The error's message, as it is shown to the user.
    pub fn message(&self) -> (res: String)
        ensures
            describes_core_error(*self, res@),
    {
        let mut s = String::new();
        let prefix: &str = match self {
            CoreError::Api(_) => "API error: ",
            CoreError::Scan(_) => "Scan error: ",
            CoreError::Update(_) => "Update error: ",
            CoreError::Config(_) => "Config error: ",
            CoreError::Io(_) => "IO error: ",
            CoreError::Http(_) => "HTTP error: ",
            CoreError::Serde(_) => "Serialization error: ",
            CoreError::HashMismatch { .. } => "Hash verification failed for ",
        };
        push_str(&mut s, prefix);
        let ghost head = s@;
        assert(head == prefix@);
        match self {
            CoreError::Api(a) => {
                let t = a.message();
                push_str(&mut s, t.as_str());
                assert(s@.skip(prefix@.len() as int) =~= t@);
            },
            CoreError::Scan(m) | CoreError::Update(m) | CoreError::Config(m) => push_str(&mut s, m.as_str()),
            CoreError::Io(e) => {
                let t = io_error_text(e);
                push_str(&mut s, t.as_str());
            },
            CoreError::Http(e) => {
                let t = reqwest_error_text(e);
                push_str(&mut s, t.as_str());
            },
            CoreError::Serde(e) => {
                let t = serde_json_error_text(e);
                push_str(&mut s, t.as_str());
            },
            CoreError::HashMismatch { filename, expected, actual } => {
                push_str(&mut s, filename.as_str());
                push_str(&mut s, ": expected ");
                push_str(&mut s, expected.as_str());
                push_str(&mut s, ", got ");
                push_str(&mut s, actual.as_str());
            },
        }
        assert(s@.subrange(0, prefix@.len() as int) =~= prefix@);
        s
    }
}

/// The result type of the library's fallible operations.
pub type CoreResult<T> = Result<T, CoreError>;

} // verus!
