//! Client-side rules of the Hermon control-plane API: configuration,
//! the typed error hierarchy and its mapping from HTTP statuses, the
//! bounded retry policy for idempotent requests, request options and
//! token storage.
use vstd::prelude::*;
use vstd::arithmetic::power2::{pow2, lemma_pow2_pos, lemma_pow2_strictly_increases};
use crate::codegraph::{opt_view, trim_end_char, trim_end_char_chars};
use crate::text::{append_decimal, append_str, chars_of, decimal, parse_uint, string_of, uint_parse};

verus! {

/// The error `reqwest` reports for a failed transport.
#[verifier::external_type_specification]
#[verifier::external_body]
pub struct ExReqwestError(reqwest::Error);

// ─────────────────────────────────────────────────────────────────────
// Configuration
// ─────────────────────────────────────────────────────────────────────

/// Retry configuration for idempotent requests.
#[derive(Debug, Clone, Copy, PartialEq, Eq, Structural)]
pub struct RetryConfig {
    /// Maximum number of attempts, the first included.
    pub max_attempts: u32,
    /// Base delay of the exponential backoff, in milliseconds.
    pub base_ms: u32,
    /// Cap on a delay, in milliseconds.
    pub cap_ms: u32,
}

impl Default for RetryConfig {
    fn default() -> (r: Self)
        ensures
            r.max_attempts == 3,
            r.base_ms == 200,
            r.cap_ms == 10_000,
    {
        RetryConfig { max_attempts: 3, base_ms: 200, cap_ms: 10_000 }
    }
}

/// Configuration of a Hermon client.
#[derive(Debug, Clone)]
pub struct HermonClientConfig {
    /// Base URL of the Hermon server.
    pub base_url: String,
    /// User-Agent header value.
    pub user_agent: String,
    pub retry: RetryConfig,
}

pub open spec fn default_retry(r: RetryConfig) -> bool {
    r.max_attempts == 3 && r.base_ms == 200 && r.cap_ms == 10_000
}

impl Default for HermonClientConfig {
    fn default() -> (r: Self)
        ensures
            r.base_url@ == "http://localhost:9100"@,
            r.user_agent@ == "hermon-client-rs/0.1.0"@,
            default_retry(r.retry),
    {
        HermonClientConfig {
            base_url: string_of(&chars_of("http://localhost:9100")),
            user_agent: string_of(&chars_of("hermon-client-rs/0.1.0")),
            retry: RetryConfig::default(),
        }
    }
}

impl HermonClientConfig {
    /// A default configuration pointing at `base_url`.
    pub fn new(base_url: &str) -> (r: Self)
        ensures
            r.base_url@ == base_url@,
            r.user_agent@ == "hermon-client-rs/0.1.0"@,
            default_retry(r.retry),
    {
        let d = HermonClientConfig::default();
        HermonClientConfig { base_url: string_of(&chars_of(base_url)), user_agent: d.user_agent, retry: d.retry }
    }
}

// ─────────────────────────────────────────────────────────────────────
// Errors
// ─────────────────────────────────────────────────────────────────────

/// Typed error from the Hermon API.
#[derive(Debug)]
pub enum HermonError {
    /// 401: authentication required or failed.
    Auth { message: String, request_id: Option<String> },
    /// 403: a policy denied the request.
    PolicyDenied { message: String, code: Option<String>, request_id: Option<String> },
    /// 429: rate limited.
    RateLimited { retry_after_ms: Option<u64>, request_id: Option<String> },
    /// 400: the request did not validate.
    Validation { message: String, detail: Option<String>, request_id: Option<String> },
    /// 5xx, and any other status without a class of its own.
    Server { status: u16, message: String, request_id: Option<String> },
    /// Transport failure (DNS, TLS, timeout, undecodable body).
    Network { message: String, source: Option<reqwest::Error> },
    /// Event-stream failure.
    Stream { message: String },
}

/// The RFC 7807 problem envelope a failed response may carry.
#[derive(Debug, Clone)]
pub struct ProblemDetails {
    pub problem_type: Option<String>,
    pub title: Option<String>,
    pub status: Option<u16>,
    pub detail: Option<String>,
    pub request_id: Option<String>,
    pub code: Option<String>,
}

/// `"HTTP "` followed by the status in decimal.
pub open spec fn http_status_text(status: u16) -> Seq<char> {
    "HTTP "@ + decimal(status as nat)
}

/// The message of a mapped error: the problem's detail, else its
/// title, else `HTTP <status>`.
pub open spec fn problem_message(status: u16, problem: Option<ProblemDetails>) -> Seq<char> {
    match problem {
        Some(p) => match p.detail {
            Some(d) => d@,
            None => match p.title {
                Some(t) => t@,
                None => http_status_text(status),
            },
        },
        None => http_status_text(status),
    }
}

pub open spec fn problem_field(problem: Option<ProblemDetails>, which: int) -> Option<Seq<char>> {
    match problem {
        Some(p) => if which == 0 {
            opt_view(p.request_id)
        } else if which == 1 {
            opt_view(p.code)
        } else {
            opt_view(p.detail)
        },
        None => None,
    }
}

/// The error a status and an optional problem body map to: 401, 403,
/// 429 and 400 have classes of their own; every other status is a
/// server error carrying it.
pub open spec fn maps_status(e: HermonError, status: u16, problem: Option<ProblemDetails>) -> bool {
    let msg = problem_message(status, problem);
    let rid = problem_field(problem, 0);
    if status == 401 {
        e matches HermonError::Auth { message, request_id } && message@ == msg && opt_view(request_id) == rid
    } else if status == 403 {
        e matches HermonError::PolicyDenied { message, code, request_id } && message@ == msg && opt_view(
            code,
        ) == problem_field(problem, 1) && opt_view(request_id) == rid
    } else if status == 429 {
        e matches HermonError::RateLimited { retry_after_ms, request_id } && retry_after_ms is None
            && opt_view(request_id) == rid
    } else if status == 400 {
        e matches HermonError::Validation { message, detail, request_id } && message@ == msg && opt_view(
            detail,
        ) == problem_field(problem, 2) && opt_view(request_id) == rid
    } else {
        e matches HermonError::Server { status: s, message, request_id } && s == status && message@ == msg
            && opt_view(request_id) == rid
    }
}

fn clone_opt(o: &Option<String>) -> (r: Option<String>)
    ensures
        opt_view(r) == opt_view(*o),
{
    match o {
        Some(s) => Some(s.clone()),
        None => None,
    }
}

fn http_status_string(status: u16) -> (r: String)
    ensures
        r@ == http_status_text(status),
{
    let mut v = chars_of("HTTP ");
    append_decimal(&mut v, status as u64);
    string_of(&v)
}

/// Map a status code and an optional problem body to a typed error.
pub fn status_to_error(status: u16, problem: Option<ProblemDetails>) -> (e: HermonError)
    ensures
        maps_status(e, status, problem),
{
    let msg = match &problem {
        Some(p) => match &p.detail {
            Some(d) => d.clone(),
            None => match &p.title {
                Some(t) => t.clone(),
                None => http_status_string(status),
            },
        },
        None => http_status_string(status),
    };
    let request_id = match &problem {
        Some(p) => clone_opt(&p.request_id),
        None => None,
    };
    if status == 401 {
        HermonError::Auth { message: msg, request_id }
    } else if status == 403 {
        let code = match &problem {
            Some(p) => clone_opt(&p.code),
            None => None,
        };
        HermonError::PolicyDenied { message: msg, code, request_id }
    } else if status == 429 {
        HermonError::RateLimited { retry_after_ms: None, request_id }
    } else if status == 400 {
        let detail = match &problem {
            Some(p) => clone_opt(&p.detail),
            None => None,
        };
        HermonError::Validation { message: msg, detail, request_id }
    } else {
        HermonError::Server { status, message: msg, request_id }
    }
}

/// The text of a `reqwest` error, as its `Display` renders it.
#[verifier::external_body]
fn reqwest_error_text(e: &reqwest::Error) -> String {
    e.to_string()
}

pub open spec fn is_retryable_spec(e: HermonError) -> bool {
    e is Server || e is Network || e is RateLimited
}

/// What an error reads as, class first, then its message.
pub open spec fn error_text(e: HermonError) -> Seq<char> {
    match e {
        HermonError::Auth { message, .. } => "auth error: "@ + message@,
        HermonError::PolicyDenied { message, .. } => "policy denied: "@ + message@,
        HermonError::RateLimited { .. } => "rate limited"@,
        HermonError::Validation { message, .. } => "validation error: "@ + message@,
        HermonError::Server { status, message, .. } => "server error "@ + decimal(status as nat) + ": "@
            + message@,
        HermonError::Network { message, .. } => "network error: "@ + message@,
        HermonError::Stream { message } => "stream error: "@ + message@,
    }
}

impl HermonError {
    /// A transport error, its message the error's own text.
    pub fn network(e: reqwest::Error) -> (r: HermonError)
        ensures
            r matches HermonError::Network { source, .. } && source == Some(e),
    {
        let message = reqwest_error_text(&e);
        HermonError::Network { message, source: Some(e) }
    }

    /// Whether an idempotent request may be retried after this error.
    pub fn is_retryable(&self) -> (r: bool)
        ensures
            r == is_retryable_spec(*self),
    {
        match self {
            HermonError::Server { .. } | HermonError::Network { .. } | HermonError::RateLimited { .. } => true,
            _ => false,
        }
    }

    /// The server's Retry-After hint in milliseconds, if it gave one.
    pub fn retry_after_ms(&self) -> (r: Option<u64>)
        ensures
            r == (match *self {
                HermonError::RateLimited { retry_after_ms, .. } => retry_after_ms,
                _ => None,
            }),
    {
        match self {
            HermonError::RateLimited { retry_after_ms, .. } => *retry_after_ms,
            _ => None,
        }
    }

    /// The error as text.
    pub fn to_string(&self) -> (r: String)
        ensures
            r@ == error_text(*self),
    {
        let mut v: Vec<char> = Vec::new();
        match self {
            HermonError::Auth { message, .. } => {
                append_str(&mut v, "auth error: ");
                append_str(&mut v, message.as_str());
            },
            HermonError::PolicyDenied { message, .. } => {
                append_str(&mut v, "policy denied: ");
                append_str(&mut v, message.as_str());
            },
            HermonError::RateLimited { .. } => {
                append_str(&mut v, "rate limited");
            },
            HermonError::Validation { message, .. } => {
                append_str(&mut v, "validation error: ");
                append_str(&mut v, message.as_str());
            },
            HermonError::Server { status, message, .. } => {
                append_str(&mut v, "server error ");
                append_decimal(&mut v, *status as u64);
                append_str(&mut v, ": ");
                append_str(&mut v, message.as_str());
            },
            HermonError::Network { message, .. } => {
                append_str(&mut v, "network error: ");
                append_str(&mut v, message.as_str());
            },
            HermonError::Stream { message } => {
                append_str(&mut v, "stream error: ");
                append_str(&mut v, message.as_str());
            },
        }
        assert(v@ =~= error_text(*self));
        string_of(&v)
    }
}

/// A JSON document, as `serde_json` holds it.
#[verifier::external_type_specification]
#[verifier::external_body]
pub struct ExJsonValue(serde_json::Value);

/// `Clone` of `serde_json::Value`, which `serde_json` derives: the copy
/// equals the original.
pub assume_specification[<serde_json::Value as Clone>::clone](v: &serde_json::Value) -> (r: serde_json::Value)
    ensures
        r == *v,
;

// ─────────────────────────────────────────────────────────────────────
// Requests and retries
// ─────────────────────────────────────────────────────────────────────

/// HTTP request methods.
#[derive(Debug, Clone, Copy, PartialEq, Eq, Structural)]
pub enum HttpMethod {
    Get,
    Head,
    Post,
    Put,
    Delete,
    Connect,
    Options,
    Trace,
    Patch,
}

pub open spec fn idempotent_method(m: HttpMethod) -> bool {
    m is Get || m is Head || m is Put || m is Delete
}

/// Whether a method may be repeated without changing the outcome.
pub fn is_idempotent(method: &HttpMethod) -> (r: bool)
    ensures
        r == idempotent_method(*method),
{
    match method {
        HttpMethod::Get | HttpMethod::Head | HttpMethod::Put | HttpMethod::Delete => true,
        _ => false,
    }
}

/// Delay before retry number `attempt + 1`: the base doubled `attempt`
/// times, capped, then three quarters of it.
pub open spec fn backoff_spec(attempt: nat, base_ms: nat, cap_ms: nat) -> nat {
    let raw = base_ms * pow2(attempt);
    let capped = if raw < cap_ms {
        raw
    } else {
        cap_ms
    };
    capped * 3 / 4
}

/// The delay (ms) before the retry that follows attempt `attempt`.
pub fn backoff_ms(attempt: u32, config: &RetryConfig) -> (r: u64)
    requires
        attempt < 64,
        config.base_ms * pow2(attempt as nat) <= u64::MAX,
    ensures
        r == backoff_spec(attempt as nat, config.base_ms as nat, config.cap_ms as nat),
{
    let shift: u64 = attempt as u64;
    proof {
        lemma_pow2_pos(attempt as nat);
        vstd::bits::lemma_u64_pow2_no_overflow(attempt as nat);
        vstd::bits::lemma_u64_shl_is_mul(1u64, shift);
    }
    let p: u64 = 1u64 << shift;
    assert(p == pow2(attempt as nat));
    let base: u64 = config.base_ms as u64 * p;
    let cap: u64 = config.cap_ms as u64;
    let capped: u64 = if base < cap {
        base
    } else {
        cap
    };
    capped * 3 / 4
}

/// Every delay stays within three quarters of the cap.
pub proof fn lemma_backoff_capped(attempt: nat, base_ms: nat, cap_ms: nat)
    ensures
        backoff_spec(attempt, base_ms, cap_ms) <= cap_ms * 3 / 4,
{
}

/// Delays never shrink from one attempt to the next.
pub proof fn lemma_backoff_monotone(a1: nat, a2: nat, base_ms: nat, cap_ms: nat)
    requires
        a1 <= a2,
    ensures
        backoff_spec(a1, base_ms, cap_ms) <= backoff_spec(a2, base_ms, cap_ms),
{
    if a1 < a2 {
        lemma_pow2_strictly_increases(a1, a2);
    }
    assert(base_ms * pow2(a1) <= base_ms * pow2(a2)) by (nonlinear_arith)
        requires
            pow2(a1) <= pow2(a2),
    ;
    let r1 = base_ms * pow2(a1);
    let r2 = base_ms * pow2(a2);
    let c1 = if r1 < cap_ms {
        r1
    } else {
        cap_ms
    };
    let c2 = if r2 < cap_ms {
        r2
    } else {
        cap_ms
    };
    assert(c1 <= c2);
    assert(c1 * 3 / 4 <= c2 * 3 / 4) by (nonlinear_arith)
        requires
            c1 <= c2,
    ;
}

/// Options of one API call.
pub struct RequestOptions {
    pub method: HttpMethod,
    pub path: String,
    pub query: Option<Vec<(String, String)>>,
    pub body: Option<serde_json::Value>,
    pub idempotent: bool,
    pub skip_auth: bool,
}

impl RequestOptions {
    fn with_method(method: HttpMethod, path: &str, idempotent: bool) -> (r: Self)
        ensures
            r.method == method,
            r.path@ == path@,
            r.query is None,
            r.body is None,
            r.idempotent == idempotent,
            !r.skip_auth,
    {
        RequestOptions {
            method,
            path: string_of(&chars_of(path)),
            query: None,
            body: None,
            idempotent,
            skip_auth: false,
        }
    }

    /// An idempotent GET of `path`.
    pub fn get(path: &str) -> (r: Self)
        ensures
            r.method == HttpMethod::Get && r.path@ == path@ && r.query is None && r.body is None,
            r.idempotent && !r.skip_auth,
    {
        Self::with_method(HttpMethod::Get, path, true)
    }

    /// A POST of `path`, not retried.
    pub fn post(path: &str) -> (r: Self)
        ensures
            r.method == HttpMethod::Post && r.path@ == path@ && r.query is None && r.body is None,
            !r.idempotent && !r.skip_auth,
    {
        Self::with_method(HttpMethod::Post, path, false)
    }

    /// An idempotent PUT of `path`.
    pub fn put(path: &str) -> (r: Self)
        ensures
            r.method == HttpMethod::Put && r.path@ == path@ && r.query is None && r.body is None,
            r.idempotent && !r.skip_auth,
    {
        Self::with_method(HttpMethod::Put, path, true)
    }

    /// An idempotent DELETE of `path`.
    pub fn delete(path: &str) -> (r: Self)
        ensures
            r.method == HttpMethod::Delete && r.path@ == path@ && r.query is None && r.body is None,
            r.idempotent && !r.skip_auth,
    {
        Self::with_method(HttpMethod::Delete, path, true)
    }

    /// The same options with a JSON body.
    pub fn with_body(self, body: serde_json::Value) -> (r: Self)
        ensures
            r.method == self.method && r.path == self.path && r.query == self.query,
            r.body == Some(body),
            r.idempotent == self.idempotent && r.skip_auth == self.skip_auth,
    {
        RequestOptions { body: Some(body), ..self }
    }

    /// The same options with query parameters.
    pub fn with_query(self, params: Vec<(String, String)>) -> (r: Self)
        ensures
            r.method == self.method && r.path == self.path && r.query == Some(params),
            r.body == self.body,
            r.idempotent == self.idempotent && r.skip_auth == self.skip_auth,
    {
        RequestOptions { query: Some(params), ..self }
    }

    /// The same options, marked idempotent or not.
    pub fn with_idempotent(self, v: bool) -> (r: Self)
        ensures
            r.method == self.method && r.path == self.path && r.query == self.query,
            r.body == self.body,
            r.idempotent == v && r.skip_auth == self.skip_auth,
    {
        RequestOptions { idempotent: v, ..self }
    }

    /// The same options, sent with or without credentials.
    pub fn with_skip_auth(self, v: bool) -> (r: Self)
        ensures
            r.method == self.method && r.path == self.path && r.query == self.query,
            r.body == self.body,
            r.idempotent == self.idempotent && r.skip_auth == v,
    {
        RequestOptions { skip_auth: v, ..self }
    }

    /// Whether failures of this request may be retried.
    pub fn should_retry(&self) -> (r: bool)
        ensures
            r == (self.idempotent || idempotent_method(self.method)),
    {
        self.idempotent || is_idempotent(&self.method)
    }
}

/// How many attempts a request gets.
pub fn attempt_budget(should_retry: bool, config: &RetryConfig) -> (r: u32)
    ensures
        r == (if should_retry {
            config.max_attempts
        } else {
            1
        }),
{
    if should_retry {
        config.max_attempts
    } else {
        1
    }
}

/// What follows a failed attempt.
#[derive(Debug, Clone, Copy, PartialEq, Eq, Structural)]
pub enum RetryStep {
    /// Report this failure.
    GiveUp,
    /// Wait this many milliseconds, then try again.
    RetryAfter(u64),
}

pub open spec fn may_retry(attempt: u32, max_attempts: u32, should_retry: bool, retryable: bool) -> bool {
    retryable && should_retry && attempt + 1 < max_attempts
}

/// The decision after attempt number `attempt` (from 0) failed: give
/// up on an error that is not retryable, on a request that may not be
/// repeated, or when the budget is spent; otherwise back off and retry.
pub fn after_failure(
    attempt: u32,
    max_attempts: u32,
    should_retry: bool,
    retryable: bool,
    config: &RetryConfig,
) -> (r: RetryStep)
    requires
        may_retry(attempt, max_attempts, should_retry, retryable) ==> attempt < 64 && config.base_ms
            * pow2(attempt as nat) <= u64::MAX,
    ensures
        r == (if may_retry(attempt, max_attempts, should_retry, retryable) {
            RetryStep::RetryAfter(
                backoff_spec(attempt as nat, config.base_ms as nat, config.cap_ms as nat) as u64,
            )
        } else {
            RetryStep::GiveUp
        }),
{
    if retryable && should_retry && attempt < max_attempts && max_attempts - attempt > 1 {
        RetryStep::RetryAfter(backoff_ms(attempt, config))
    } else {
        RetryStep::GiveUp
    }
}

/// The error of a request that was never attempted.
pub fn attempts_exhausted() -> (e: HermonError)
    ensures
        e matches HermonError::Network { message, source } && message@ == "all retry attempts exhausted"@
            && source is None,
{
    HermonError::Network { message: string_of(&chars_of("all retry attempts exhausted")), source: None }
}

/// The error when the access token could not be refreshed.
pub fn refresh_failed() -> (e: HermonError)
    ensures
        e matches HermonError::Auth { message, request_id } && message@ == "authentication failed"@
            && request_id is None,
{
    HermonError::Auth { message: string_of(&chars_of("authentication failed")), request_id: None }
}

/// What to do with a response, by its status.
#[derive(Debug, Clone, Copy, PartialEq, Eq, Structural)]
pub enum ResponseAction {
    /// 401 on an authenticated request: refresh the token, then retry once.
    RefreshAndRetry,
    /// 429: report a rate limit with the Retry-After hint.
    RateLimited,
    /// Another non-2xx status: map its problem body.
    Problem,
    /// 2xx: decode the body.
    Success,
}

pub open spec fn response_action(status: u16, skip_auth: bool) -> ResponseAction {
    if status == 401 && !skip_auth {
        ResponseAction::RefreshAndRetry
    } else if status == 429 {
        ResponseAction::RateLimited
    } else if !(200 <= status && status <= 299) {
        ResponseAction::Problem
    } else {
        ResponseAction::Success
    }
}

/// Classify a response status.
pub fn classify_response(status: u16, skip_auth: bool) -> (r: ResponseAction)
    ensures
        r == response_action(status, skip_auth),
{
    if status == 401 && !skip_auth {
        ResponseAction::RefreshAndRetry
    } else if status == 429 {
        ResponseAction::RateLimited
    } else if !(200 <= status && status <= 299) {
        ResponseAction::Problem
    } else {
        ResponseAction::Success
    }
}

/// The Retry-After hint of a header value in milliseconds: a whole
/// number of seconds, times a thousand; `None` when it is not one.
pub fn retry_after_from_header(value: &str) -> (r: Option<u64>)
    requires
        uint_parse(value@, u64::MAX as nat) matches Ok(secs) ==> secs * 1000 <= u64::MAX,
    ensures
        r == (match uint_parse(value@, u64::MAX as nat) {
            Ok(secs) => Some((secs * 1000) as u64),
            Err(_) => None,
        }),
{
    match parse_uint(&chars_of(value), u64::MAX) {
        Ok(secs) => Some(secs * 1000),
        Err(_) => None,
    }
}

/// The full URL of an API path: the base without trailing slashes,
/// then the path.
pub fn join_url(base_url: &str, path: &str) -> (r: String)
    ensures
        r@ == trim_end_char(base_url@, '/') + path@,
{
    let mut v = trim_end_char_chars(&chars_of(base_url), '/');
    append_str(&mut v, path);
    string_of(&v)
}

/// The Authorization header for a stored access token, else for a
/// stored API token, else none.
pub fn bearer_header(access: Option<String>, api_token: Option<String>) -> (r: Option<String>)
    ensures
        opt_view(r) == (match access {
            Some(a) => Some("Bearer "@ + a@),
            None => match api_token {
                Some(t) => Some("Bearer "@ + t@),
                None => None,
            },
        }),
{
    let token = match access {
        Some(a) => a,
        None => match api_token {
            Some(t) => t,
            None => {
                return None;
            },
        },
    };
    let mut v = chars_of("Bearer ");
    append_str(&mut v, token.as_str());
    Some(string_of(&v))
}

// ─────────────────────────────────────────────────────────────────────
// Token storage
// ─────────────────────────────────────────────────────────────────────

/// Storage for access, refresh and API tokens.
pub trait TokenStore {
    /// The access token the store gives at time `now_ms`.
    spec fn access_view(&self, now_ms: i64) -> Option<Seq<char>>;
    /// The API token the store holds.
    spec fn api_token_view(&self) -> Option<Seq<char>>;
    /// The access token, or `None` when absent or expired: the one the
    /// store gives at the time of the call.
    fn get_access(&self) -> (r: Option<String>)
        ensures
            exists|now_ms: i64| opt_view(r) == self.access_view(now_ms),
    ;
    /// The refresh token, or `None` when absent.
    fn get_refresh(&self) -> Option<String>;
    /// The API token, or `None` when absent.
    fn get_api_token(&self) -> (r: Option<String>)
        ensures
            opt_view(r) == self.api_token_view(),
    ;
    /// Keep the token pair of a login or refresh response.
    fn set_tokens(&mut self, access: String, refresh: String, expires_at: i64);
    /// Keep a standalone API token.
    fn set_api_token(&mut self, token: String);
    /// Forget every token (logout).
    fn clear(&mut self);
}

/// The header for an access token, else for an API token, else none.
pub open spec fn bearer_of(access: Option<Seq<char>>, api_token: Option<Seq<char>>) -> Option<Seq<char>> {
    match access {
        Some(a) => Some("Bearer "@ + a),
        None => match api_token {
            Some(t) => Some("Bearer "@ + t),
            None => None,
        },
    }
}

/// The Authorization header for whatever `store` holds: `Bearer ` and
/// the access token it gives at the time of the call, else `Bearer `
/// and its API token, else none.
pub fn auth_header<S: TokenStore>(store: &S) -> (r: Option<String>)
    ensures
        exists|now_ms: i64| opt_view(r) == bearer_of(store.access_view(now_ms), store.api_token_view()),
        r matches Some(h) ==> "Bearer "@.is_prefix_of(h@),
{
    let access = store.get_access();
    let api = store.get_api_token();
    let ghost a = opt_view(access);
    let ghost t = choose|t: i64| a == store.access_view(t);
    let r = bearer_header(access, api);
    proof {
        reveal_strlit("Bearer ");
        assert(opt_view(r) == bearer_of(store.access_view(t), store.api_token_view()));
    }
    r
}

/// The current time in milliseconds since the Unix epoch, from
/// `chrono::Utc::now().timestamp_millis()`; nothing is claimed of it.
#[verifier::external_body]
fn now_millis() -> i64 {
    chrono::Utc::now().timestamp_millis()
}

/// What a token store holds: access, refresh and API tokens, and the
/// access token's expiry in milliseconds since the epoch.
pub type TokenState = (Option<Seq<char>>, Option<Seq<char>>, Option<Seq<char>>, i64);

/// The access token as seen at time `now_ms`: gone once expired.
pub open spec fn access_at_spec(s: TokenState, now_ms: i64) -> Option<Seq<char>> {
    if s.0 is Some && now_ms >= s.3 {
        None
    } else {
        s.0
    }
}

/// In-memory token store, for tests and short-lived sessions.
pub struct MemoryTokenStore {
    access: Option<String>,
    refresh: Option<String>,
    api_token: Option<String>,
    expires_at: i64,
}

impl View for MemoryTokenStore {
    type V = TokenState;

    closed spec fn view(&self) -> TokenState {
        (opt_view(self.access), opt_view(self.refresh), opt_view(self.api_token), self.expires_at)
    }
}

impl MemoryTokenStore {
    /// An empty store.
    pub fn new() -> (r: Self)
        ensures
            r@ == (None::<Seq<char>>, None::<Seq<char>>, None::<Seq<char>>, 0i64),
    {
        MemoryTokenStore { access: None, refresh: None, api_token: None, expires_at: 0 }
    }

    /// The access token as seen at time `now_ms`.
    pub fn access_at(&self, now_ms: i64) -> (r: Option<String>)
        ensures
            opt_view(r) == access_at_spec(self@, now_ms),
    {
        if self.access.is_some() && now_ms >= self.expires_at {
            None
        } else {
            clone_opt(&self.access)
        }
    }
}

impl Default for MemoryTokenStore {
    fn default() -> (r: Self)
        ensures
            r@ == (None::<Seq<char>>, None::<Seq<char>>, None::<Seq<char>>, 0i64),
    {
        MemoryTokenStore::new()
    }
}

impl TokenStore for MemoryTokenStore {
    open spec fn access_view(&self, now_ms: i64) -> Option<Seq<char>> {
        access_at_spec(self@, now_ms)
    }

    open spec fn api_token_view(&self) -> Option<Seq<char>> {
        self@.2
    }

    fn get_access(&self) -> (r: Option<String>)
        ensures
            exists|now_ms: i64| opt_view(r) == access_at_spec(self@, now_ms),
    {
        let now = now_millis();
        let r = self.access_at(now);
        assert(opt_view(r) == self.access_view(now));
        r
    }

    fn get_refresh(&self) -> (r: Option<String>)
        ensures
            opt_view(r) == self@.1,
    {
        clone_opt(&self.refresh)
    }

    fn get_api_token(&self) -> (r: Option<String>)
        ensures
            opt_view(r) == self@.2,
    {
        clone_opt(&self.api_token)
    }

    fn set_tokens(&mut self, access: String, refresh: String, expires_at: i64)
        ensures
            final(self)@ == (Some(access@), Some(refresh@), old(self)@.2, expires_at),
    {
        self.access = Some(access);
        self.refresh = Some(refresh);
        self.expires_at = expires_at;
    }

    fn set_api_token(&mut self, token: String)
        ensures
            final(self)@ == (old(self)@.0, old(self)@.1, Some(token@), old(self)@.3),
    {
        self.api_token = Some(token);
    }

    fn clear(&mut self)
        ensures
            final(self)@ == (None::<Seq<char>>, None::<Seq<char>>, None::<Seq<char>>, 0i64),
    {
        self.access = None;
        self.refresh = None;
        self.api_token = None;
        self.expires_at = 0;
    }
}

/// A stored access token reads back until it expires and not after;
/// the refresh token never expires.
pub proof fn lemma_access_token_lifetime(s: TokenState, access: Seq<char>, refresh: Seq<char>, expires_at: i64, now_ms: i64)
    ensures
        access_at_spec((Some(access), Some(refresh), s.2, expires_at), now_ms) == (if now_ms < expires_at {
            Some(access)
        } else {
            None
        }),
{
}

/// After a logout nothing reads back, whatever the time.
pub proof fn lemma_cleared_store_is_empty(now_ms: i64)
    ensures
        access_at_spec((None::<Seq<char>>, None::<Seq<char>>, None::<Seq<char>>, 0i64), now_ms) is None,
{
}

} // verus!
