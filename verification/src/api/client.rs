//! How the API client addresses the server and when it retries.
use vstd::prelude::*;
use vstd::string::*;
use vstd::arithmetic::power2::{pow2, lemma_pow2_unfold, lemma2_to64, lemma2_to64_rest};
use crate::text;
use crate::text::{chars_of, push_str, string_of, trim_end};
use crate::api::common::ApiQueryParams;
use crate::api::error::ApiError;
use crate::api::common::ApiErrorDetails;
use crate::api::response::body_or_unknown;

verus! {

/// When and how often a failed request is retried.
pub struct RetryConfig {
    pub max_retries: u32,
    pub initial_backoff_ms: u64,
    pub max_backoff_ms: u64,
    pub timeout_seconds: u64,
}

impl Clone for RetryConfig {
    fn clone(&self) -> (r: Self)
        ensures
            r == *self,
    {
        RetryConfig {
            max_retries: self.max_retries,
            initial_backoff_ms: self.initial_backoff_ms,
            max_backoff_ms: self.max_backoff_ms,
            timeout_seconds: self.timeout_seconds,
        }
    }
}

impl Default for RetryConfig {
    /// Three retries, starting at 100 ms and capped at 10 s, with a 30 s
    /// request timeout.
    fn default() -> (r: Self)
        ensures
            r.max_retries == 3,
            r.initial_backoff_ms == 100,
            r.max_backoff_ms == 10000,
            r.timeout_seconds == 30,
    {
        RetryConfig { max_retries: 3, initial_backoff_ms: 100, max_backoff_ms: 10000, timeout_seconds: 30 }
    }
}

/// The wait before attempt `attempt` (counted from 0): none before the
/// first, then the initial backoff doubled for each earlier retry, capped.
pub open spec fn backoff_spec(c: RetryConfig, attempt: nat) -> nat {
    let raw: nat = (c.initial_backoff_ms as nat) * pow2((attempt - 1) as nat);
    if raw < c.max_backoff_ms {
        raw
    } else {
        c.max_backoff_ms as nat
    }
}

/// The wait before attempt `attempt >= 1` can be computed without
/// overflow: the doubling count is below 64 and the uncapped backoff fits
/// in `u64`.
pub open spec fn backoff_computable(c: RetryConfig, attempt: nat) -> bool {
    &&& 1 <= attempt <= 64
    &&& c.initial_backoff_ms * pow2((attempt - 1) as nat) <= u64::MAX
}

/// `2^k` grows with `k`.
proof fn lemma_pow2_mono(a: nat, b: nat)
    requires
        a <= b,
    ensures
        pow2(a) <= pow2(b),
    decreases b - a,
{
    if a < b {
        lemma_pow2_mono(a, (b - 1) as nat);
        lemma_pow2_unfold(b);
    }
}

/// Later retries never wait less than earlier ones: the backoff grows with
/// the attempt number, up to its cap.
pub proof fn lemma_backoff_grows(c: RetryConfig, a: nat, b: nat)
    requires
        1 <= a <= b,
    ensures
        backoff_spec(c, a) <= backoff_spec(c, b),
        backoff_spec(c, b) <= c.max_backoff_ms,
{
    lemma_pow2_mono((a - 1) as nat, (b - 1) as nat);
    let ib = c.initial_backoff_ms as nat;
    assert(ib * pow2((a - 1) as nat) <= ib * pow2((b - 1) as nat)) by (nonlinear_arith)
        requires
            pow2((a - 1) as nat) <= pow2((b - 1) as nat),
    ;
}

impl RetryConfig {
    /// Whether the wait before attempt `attempt` can be computed.
    pub fn can_back_off(&self, attempt: u32) -> (r: bool)
        ensures
            r == backoff_computable(*self, attempt as nat),
    {
        if attempt == 0 || attempt > 64 {
            return false;
        }
        let k = attempt - 1;
        let mut v: u64 = self.initial_backoff_ms;
        let mut i: u32 = 0;
        proof {
            lemma2_to64();
        }
        while i < k
            invariant
                i <= k < 64,
                k == attempt - 1,
                v as nat == self.initial_backoff_ms * pow2(i as nat),
            decreases k - i,
        {
            proof {
                lemma_pow2_unfold((i + 1) as nat);
                assert(self.initial_backoff_ms * pow2((i + 1) as nat) == 2 * (
                self.initial_backoff_ms * pow2(i as nat))) by (nonlinear_arith)
                    requires
                        pow2((i + 1) as nat) == 2 * pow2(i as nat),
                ;
            }
            if v > u64::MAX / 2 {
                proof {
                    let ib = self.initial_backoff_ms as nat;
                    lemma_pow2_mono((i + 1) as nat, k as nat);
                    assert(ib * pow2((i + 1) as nat) <= ib * pow2(k as nat)) by (nonlinear_arith)
                        requires
                            pow2((i + 1) as nat) <= pow2(k as nat),
                    ;
                }
                return false;
            }
            v = v * 2;
            i = i + 1;
        }
        true
    }

    /// The wait in milliseconds before attempt `attempt >= 1`.
    pub fn backoff_ms(&self, attempt: u32) -> (r: u64)
        requires
            backoff_computable(*self, attempt as nat),
        ensures
            r as nat == backoff_spec(*self, attempt as nat),
            r <= self.max_backoff_ms,
    {
        let k = attempt - 1;
        let mut v: u64 = self.initial_backoff_ms;
        let mut i: u32 = 0;
        proof {
            lemma2_to64();
        }
        while i < k
            invariant
                i <= k < 64,
                k == attempt - 1,
                self.initial_backoff_ms * pow2(k as nat) <= u64::MAX,
                v as nat == self.initial_backoff_ms * pow2(i as nat),
            decreases k - i,
        {
            proof {
                lemma_pow2_unfold((i + 1) as nat);
                let ib = self.initial_backoff_ms as nat;
                assert(ib * pow2((i + 1) as nat) == 2 * (ib * pow2(i as nat))) by (nonlinear_arith)
                    requires
                        pow2((i + 1) as nat) == 2 * pow2(i as nat),
                ;
                lemma_pow2_mono((i + 1) as nat, k as nat);
                assert(ib * pow2((i + 1) as nat) <= ib * pow2(k as nat)) by (nonlinear_arith)
                    requires
                        pow2((i + 1) as nat) <= pow2(k as nat),
                ;
            }
            v = v * 2;
            i = i + 1;
        }
        if v < self.max_backoff_ms {
            v
        } else {
            self.max_backoff_ms
        }
    }
}

/// What one HTTP attempt came to.
pub enum AttemptOutcome {
    /// The server answered with this status.
    Response { status: u16 },
    /// No answer: the transport error, whether it was a timeout, whether it
    /// happened while connecting or sending, and its text.
    TransportError { timeout: bool, connect_or_request: bool, text: String },
}

/// Whether a status is a success (2xx).
pub open spec fn is_success_status(s: u16) -> bool {
    200 <= s <= 299
}

/// Whether a status is a server error (5xx).
pub open spec fn is_server_error_status(s: u16) -> bool {
    500 <= s <= 599
}

/// What the retry loop does after an attempt.
pub enum RetryAction {
    /// Send the request, after waiting this long when given.
    Send { wait_ms: Option<u64> },
    /// The request succeeded: read the response body.
    ParseSuccess,
    /// The server refused the request for good: read its error body.
    HandleErrorResponse,
    /// Give up with this error.
    Fail(ApiError),
}

/// Whether an attempt succeeded, as the connection statistics count it.
pub open spec fn attempt_succeeded(o: AttemptOutcome) -> bool {
    o matches AttemptOutcome::Response { status } && is_success_status(status)
}

/// The error kept for a retry after `o`, when `o` is worth retrying: rate
/// limiting, a server error, a timeout, or a failure to connect or send.
pub open spec fn retry_error(c: RetryConfig, o: AttemptOutcome) -> Option<ApiError> {
    match o {
        AttemptOutcome::Response { status } => if status == 429 {
            Some(ApiError::RateLimited)
        } else if is_server_error_status(status) && status != 401 {
            Some(ApiError::ServiceUnavailable)
        } else {
            None
        },
        AttemptOutcome::TransportError { timeout, connect_or_request, .. } => if timeout {
            Some(ApiError::Timeout(c.timeout_seconds))
        } else if connect_or_request {
            Some(ApiError::ServiceUnavailable)
        } else {
            None
        },
    }
}

/// The progress of a request through its attempts.
pub struct RetryState {
    /// The number of the attempt under way, counted from 0.
    pub attempt: u32,
}

/// Whether an attempt that came to `outcome` is worth retrying: rate
/// limiting, a server error, a timeout, or a failure to connect or send.
pub fn is_retryable(config: &RetryConfig, outcome: &AttemptOutcome) -> (r: bool)
    ensures
        r == retry_error(*config, *outcome) is Some,
{
    match outcome {
        AttemptOutcome::Response { status } => *status == 429 || (500 <= *status && *status <= 599),
        AttemptOutcome::TransportError { timeout, connect_or_request, .. } => *timeout || *connect_or_request,
    }
}

impl RetryState {
    /// The state before the first attempt, and the action to take: send at
    /// once.
    pub fn start() -> (r: (RetryState, RetryAction))
        ensures
            r.0.attempt == 0,
            r.1 == (RetryAction::Send { wait_ms: None }),
    {
        (RetryState { attempt: 0 }, RetryAction::Send { wait_ms: None })
    }

    /// The next action after attempt `self.attempt` came to `outcome`: a
    /// success is read, 401 fails with `AuthError` at once, other client
    /// errors are read as error responses, other transport errors fail; a
    /// retryable outcome is sent again after the backoff while retries are
    /// left, and fails with its error when none are.
    pub fn on_outcome(&mut self, config: &RetryConfig, outcome: AttemptOutcome) -> (r: RetryAction)
        requires
            old(self).attempt <= config.max_retries,
            retry_error(*config, outcome) is Some && old(self).attempt < config.max_retries
                ==> backoff_computable(*config, (old(self).attempt + 1) as nat),
        ensures
            match outcome {
                AttemptOutcome::Response { status } => {
                    &&& is_success_status(status) ==> r == RetryAction::ParseSuccess
                    &&& status == 401 ==> r == RetryAction::Fail(ApiError::AuthError)
                    &&& (!is_success_status(status) && status != 401 && status != 429
                        && !is_server_error_status(status)) ==> r
                        == RetryAction::HandleErrorResponse
                },
                AttemptOutcome::TransportError { timeout, connect_or_request, text } => (!timeout
                    && !connect_or_request) ==> r == RetryAction::Fail(
                    ApiError::RequestError(text),
                ),
            },
            match retry_error(*config, outcome) {
                Some(e) => if old(self).attempt < config.max_retries {
                    &&& final(self).attempt == old(self).attempt + 1
                    &&& r == RetryAction::Send {
                        wait_ms: Some(backoff_spec(*config, final(self).attempt as nat) as u64),
                    }
                } else {
                    r == RetryAction::Fail(e)
                },
                None => final(self).attempt == old(self).attempt,
            },
            final(self).attempt <= config.max_retries,
    {
        let retry = match outcome {
            AttemptOutcome::Response { status } => {
                if 200 <= status && status <= 299 {
                    return RetryAction::ParseSuccess;
                }
                if status == 401 {
                    return RetryAction::Fail(ApiError::AuthError);
                }
                if status == 429 {
                    ApiError::RateLimited
                } else if 500 <= status && status <= 599 {
                    ApiError::ServiceUnavailable
                } else {
                    return RetryAction::HandleErrorResponse;
                }
            },
            AttemptOutcome::TransportError { timeout, connect_or_request, text } => {
                if timeout {
                    ApiError::Timeout(config.timeout_seconds)
                } else if connect_or_request {
                    ApiError::ServiceUnavailable
                } else {
                    return RetryAction::Fail(ApiError::RequestError(text));
                }
            },
        };
        if self.attempt < config.max_retries {
            self.attempt = self.attempt + 1;
            let wait = config.backoff_ms(self.attempt);
            RetryAction::Send { wait_ms: Some(wait) }
        } else {
            RetryAction::Fail(retry)
        }
    }
}

/// Where requests go and how they are signed.
pub struct ClientSettings {
    pub base_url: String,
    pub auth_header: String,
    pub insecure: bool,
    pub retry_config: RetryConfig,
}

impl Clone for ClientSettings {
    fn clone(&self) -> (r: Self)
        ensures
            r == *self,
    {
        ClientSettings {
            base_url: self.base_url.clone(),
            auth_header: self.auth_header.clone(),
            insecure: self.insecure,
            retry_config: self.retry_config.clone(),
        }
    }
}

impl ClientSettings {
    /// Settings for `endpoint` (trailing `/` removed) signed with
    /// `PVEAPIToken=<api_token>`.
    pub fn new(endpoint: &str, api_token: &str, insecure: bool, retry_config: RetryConfig) -> (r: Self)
        ensures
            r.base_url@ == text::trim_end_char(endpoint@, '/'),
            r.auth_header@ == "PVEAPIToken="@ + api_token@,
            r.insecure == insecure,
            r.retry_config == retry_config,
    {
        let e = chars_of(endpoint);
        let base = trim_end(&e, '/');
        let mut auth = chars_of("PVEAPIToken=");
        push_str(&mut auth, api_token);
        ClientSettings {
            base_url: string_of(&base),
            auth_header: string_of(&auth),
            insecure,
            retry_config,
        }
    }

    /// The URL of an API path: the base URL followed by the path.
    pub fn url(&self, path: &str) -> (r: String)
        ensures
            r@ == self.base_url@ + path@,
    {
        let mut out = chars_of(self.base_url.as_str());
        push_str(&mut out, path);
        string_of(&out)
    }
}

/// A path with query parameters appended.
pub fn path_with_params(path: &str, params: &ApiQueryParams) -> (r: String)
    ensures
        r@ == path@ + crate::api::common::query_string_spec(params@),
{
    let mut out = chars_of(path);
    let q = params.to_query_string();
    push_str(&mut out, q.as_str());
    string_of(&out)
}

/// The error for a response the client does not retry and cannot read as
/// success: the status, the body (`Unknown error` when it could not be read)
/// and the details read from the body.
pub fn handle_error_response(
    status: u16,
    text: Option<String>,
    details: Option<Box<ApiErrorDetails>>,
) -> (r: ApiError)
    ensures
        r matches ApiError::ApiError { status: s, message: m, details: d } && s == status && m@
            == crate::api::response::unknown_error_text(text) && d == details,
{
    ApiError::ApiError { status, message: body_or_unknown(text), details }
}

} // verus!
