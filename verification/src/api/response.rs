//! What the client makes of a response.
use vstd::prelude::*;
use vstd::string::*;
use crate::api::common::{ApiErrorDetails, ApiResponse};
use crate::api::error::ApiError;
use crate::text::{chars_of, push_str, string_of};

verus! {

/// Decides what a response body means.
pub struct ProxmoxResponseHandler;

/// The error for a response that was not a success: 401 is an
/// authentication failure, 429 rate limiting, 5xx an unavailable service,
/// anything else an API error carrying the status, the body and the error
/// details read from the body.
pub open spec fn is_error_for_status(
    e: ApiError,
    status: u16,
    text: Seq<char>,
    details: Option<Box<ApiErrorDetails>>,
) -> bool {
    if status == 401 {
        e == ApiError::AuthError
    } else if status == 429 {
        e == ApiError::RateLimited
    } else if status >= 500 {
        e == ApiError::ServiceUnavailable
    } else {
        e matches ApiError::ApiError { status: s, message: m, details: d } && s == status && m@
            == text && d == details
    }
}

impl ProxmoxResponseHandler {
    /// The error for a failed response with status `status`, body `text`,
    /// and the details that the body held when it read as an error body.
    pub fn extract_error(status: u16, text: String, details: Option<Box<ApiErrorDetails>>) -> (r: ApiError)
        ensures
            is_error_for_status(r, status, text@, details),
    {
        if status == 401 {
            return ApiError::AuthError;
        }
        if status == 429 {
            return ApiError::RateLimited;
        }
        if status >= 500 {
            return ApiError::ServiceUnavailable;
        }
        ApiError::ApiError { status, message: text, details }
    }

    /// The outcome of a response to a request that expects no data: success
    /// for a 2xx status, else the error for the status and body (the body
    /// `Unknown error` when it could not be read).
    pub fn extract_empty_response(
        status: u16,
        text: Option<String>,
        details: Option<Box<ApiErrorDetails>>,
    ) -> (r: Result<(), ApiError>)
        ensures
            200 <= status <= 299 ==> r is Ok,
            !(200 <= status <= 299) ==> (r matches Err(e) && is_error_for_status(
                e,
                status,
                unknown_error_text(text),
                details,
            )),
    {
        if 200 <= status && status <= 299 {
            Ok(())
        } else {
            Err(Self::extract_error(status, body_or_unknown(text), details))
        }
    }

    /// The data of a successful response: the `data` of the envelope when
    /// the body read as one, else the body read directly as the data, else
    /// a parse error with the reader's message.
    pub fn extract_response<T>(
        wrapped: Option<ApiResponse<T>>,
        direct: Result<T, String>,
    ) -> (r: Result<T, ApiError>)
        ensures
            match wrapped {
                Some(w) => r == Ok::<T, ApiError>(w.data),
                None => match direct {
                    Ok(d) => r == Ok::<T, ApiError>(d),
                    Err(m) => r matches Err(ApiError::ParseError(p)) && p@
                        == "Failed to parse response: "@ + m@,
                },
            },
    {
        match wrapped {
            Some(w) => Ok(w.data),
            None => match direct {
                Ok(d) => Ok(d),
                Err(m) => {
                    let mut out = chars_of("Failed to parse response: ");
                    push_str(&mut out, m.as_str());
                    Err(ApiError::ParseError(string_of(&out)))
                },
            },
        }
    }
}

/// The body text, or `Unknown error` when it could not be read.
pub open spec fn unknown_error_text(text: Option<String>) -> Seq<char> {
    match text {
        Some(t) => t@,
        None => "Unknown error"@,
    }
}

/// The body text, or `Unknown error` when it could not be read.
pub fn body_or_unknown(text: Option<String>) -> (r: String)
    ensures
        r@ == unknown_error_text(text),
{
    match text {
        Some(t) => t,
        None => String::from_str("Unknown error"),
    }
}

} // verus!
