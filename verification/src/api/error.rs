//! Errors of API calls.
use vstd::prelude::*;
use vstd::string::*;
use crate::text;
use crate::text::{chars_of, push_str, push_u64, string_of};
use crate::api::common::ApiErrorDetails;

verus! {

/// An error of an API call. A failed HTTP exchange carries the text of the
/// transport error.
pub enum ApiError {
    RequestError(String),
    ApiError { status: u16, message: String, details: Option<Box<ApiErrorDetails>> },
    ParseError(String),
    AuthError,
    Timeout(u64),
    RateLimited,
    ServiceUnavailable,
}

/// The text an error is shown with.
pub open spec fn api_error_text(e: ApiError) -> Seq<char> {
    match e {
        ApiError::RequestError(m) => "HTTP request failed: "@ + m@,
        ApiError::ApiError { status, message, .. } => "API returned error (HTTP "@
            + text::nat_decimal(status as nat) + "): "@ + message@,
        ApiError::ParseError(m) => "Failed to parse response: "@ + m@,
        ApiError::AuthError => "Authentication failed"@,
        ApiError::Timeout(s) => "Request timeout after "@ + text::nat_decimal(s as nat)
            + " seconds"@,
        ApiError::RateLimited => "Too many requests, rate limited"@,
        ApiError::ServiceUnavailable => "Service unavailable, retry later"@,
    }
}

impl ApiError {
    /// The text the error is shown with.
    pub fn message(&self) -> (r: String)
        ensures
            r@ == api_error_text(*self),
    {
        match self {
            ApiError::RequestError(m) => {
                let mut out = chars_of("HTTP request failed: ");
                push_str(&mut out, m.as_str());
                string_of(&out)
            },
            ApiError::ApiError { status, message, .. } => {
                let mut out = chars_of("API returned error (HTTP ");
                push_u64(&mut out, *status as u64);
                push_str(&mut out, "): ");
                push_str(&mut out, message.as_str());
                string_of(&out)
            },
            ApiError::ParseError(m) => {
                let mut out = chars_of("Failed to parse response: ");
                push_str(&mut out, m.as_str());
                string_of(&out)
            },
            ApiError::AuthError => String::from_str("Authentication failed"),
            ApiError::Timeout(s) => {
                let mut out = chars_of("Request timeout after ");
                push_u64(&mut out, *s);
                push_str(&mut out, " seconds");
                string_of(&out)
            },
            ApiError::RateLimited => String::from_str("Too many requests, rate limited"),
            ApiError::ServiceUnavailable => String::from_str("Service unavailable, retry later"),
        }
    }
}

} // verus!
