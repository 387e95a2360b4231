//! The library's error type.

use vstd::prelude::*;

use crate::text::{decimal, push_decimal, push_str};

verus! {

/// What can go wrong in the bot's own logic.
pub enum SerisError {
    /// HTTP request timed out.
    Timeout {
        /// Service that timed out.
        service: &'static str,
    },
    /// HTTP response returned a non-retryable status.
    HttpStatus {
        /// Service that returned the status.
        service: &'static str,
        /// Returned HTTP status code.
        status: u16,
    },
    /// Circuit breaker is open for this service.
    CircuitOpen {
        /// Service currently blocked by the circuit breaker.
        service: &'static str,
    },
    /// Configuration values that failed validation.
    InvalidConfig {
        /// Name of the invalid field.
        field: &'static str,
        /// Why the value was rejected.
        reason: &'static str,
    },
    /// Self-update failures.
    Update {
        /// What went wrong.
        message: String,
    },
}

/// The reason phrase that the HTTP status registry gives `code`, if it names one.
pub uninterp spec fn registered_reason(code: u16) -> Option<Seq<char>>;

/// `reqwest::StatusCode::from_u16(code)` followed by `canonical_reason`: the
/// registered reason phrase of `code`. The table is named, not stated; what is
/// stated is that no reason comes for a number outside 100..=999, which
/// `from_u16` refuses.
#[verifier::external_body]
fn canonical_reason(code: u16) -> (reason: Option<&'static str>)
    ensures
        match reason {
            Some(text) => registered_reason(code) == Some(text@),
            None => registered_reason(code) is None,
        },
        !(100 <= code <= 999) ==> reason is None,
{
    match reqwest::StatusCode::from_u16(code) {
        Ok(status) => status.canonical_reason(),
        Err(_) => None,
    }
}

/// How a status code is written: its number, then its reason phrase, or
/// `<unknown status code>` where the registry names none.
pub open spec fn status_code_text(code: u16) -> Seq<char> {
    decimal(code as nat) + " "@ + match registered_reason(code) {
        Some(reason) => reason,
        None => "<unknown status code>"@,
    }
}

/// The message of an error.
pub open spec fn error_text(error: SerisError) -> Seq<char> {
    match error {
        SerisError::Timeout { service } => "request to "@ + service@ + " timed out"@,
        SerisError::HttpStatus { service, status } => "request to "@ + service@ + " failed with status "@
            + status_code_text(status),
        SerisError::CircuitOpen { service } => "service "@ + service@ + " is temporarily unavailable"@,
        SerisError::InvalidConfig { field, reason } => "invalid configuration for "@ + field@ + ": "@ + reason@,
        SerisError::Update { message } => "self-update failed: "@ + message@,
    }
}

impl SerisError {
    /// Returns the error's message.
    pub fn message(&self) -> (text: String)
        ensures
            text@ == error_text(*self),
    {
        let mut text = String::new();
        match self {
            SerisError::Timeout { service } => {
                push_str(&mut text, "request to ");
                push_str(&mut text, service);
                push_str(&mut text, " timed out");
            },
            SerisError::HttpStatus { service, status } => {
                push_str(&mut text, "request to ");
                push_str(&mut text, service);
                push_str(&mut text, " failed with status ");
                push_decimal(&mut text, *status as u64);
                push_str(&mut text, " ");
                match canonical_reason(*status) {
                    Some(reason) => push_str(&mut text, reason),
                    None => push_str(&mut text, "<unknown status code>"),
                }
            },
            SerisError::CircuitOpen { service } => {
                push_str(&mut text, "service ");
                push_str(&mut text, service);
                push_str(&mut text, " is temporarily unavailable");
            },
            SerisError::InvalidConfig { field, reason } => {
                push_str(&mut text, "invalid configuration for ");
                push_str(&mut text, field);
                push_str(&mut text, ": ");
                push_str(&mut text, reason);
            },
            SerisError::Update { message } => {
                push_str(&mut text, "self-update failed: ");
                push_str(&mut text, message.as_str());
            },
        }
        assert(text@ =~= error_text(*self));
        text
    }
}

/// Canonical error alias.
pub type Error = SerisError;

} // verus!
