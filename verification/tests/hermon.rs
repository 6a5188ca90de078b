use wish_core::hermon_models::{found_or_none, sync_request};
use wish_core::hermon::{
    after_failure, attempt_budget, attempts_exhausted, backoff_ms, bearer_header, classify_response,
    is_idempotent, join_url, refresh_failed, retry_after_from_header, status_to_error, HermonClientConfig,
    HermonError, HttpMethod, MemoryTokenStore, ProblemDetails, RequestOptions, ResponseAction, RetryConfig,
    RetryStep, TokenStore,
};

fn now_ms() -> i64 {
    chrono::Utc::now().timestamp_millis()
}

#[test]
fn error_display() {
    let e = HermonError::Auth { message: "bad token".into(), request_id: None };
    assert_eq!(e.to_string(), "auth error: bad token");
    let s = HermonError::Server { status: 502, message: "upstream".into(), request_id: None };
    assert_eq!(s.to_string(), "server error 502: upstream");
    assert_eq!(HermonError::RateLimited { retry_after_ms: None, request_id: None }.to_string(), "rate limited");
}

#[test]
fn error_retryable() {
    assert!(!HermonError::Auth { message: "x".into(), request_id: None }.is_retryable());
    assert!(HermonError::Server { status: 500, message: "x".into(), request_id: None }.is_retryable());
    assert!(HermonError::Network { message: "timeout".into(), source: None }.is_retryable());
    assert!(HermonError::RateLimited { retry_after_ms: Some(1000), request_id: None }.is_retryable());
    assert!(!HermonError::Validation { message: "bad".into(), detail: None, request_id: None }.is_retryable());
    assert!(!HermonError::PolicyDenied { message: "denied".into(), code: None, request_id: None }.is_retryable());
}

#[test]
fn error_retry_after() {
    let e = HermonError::RateLimited { retry_after_ms: Some(5000), request_id: None };
    assert_eq!(e.retry_after_ms(), Some(5000));
    let e2 = HermonError::Auth { message: "x".into(), request_id: None };
    assert_eq!(e2.retry_after_ms(), None);
}

#[test]
fn status_to_error_401() {
    let e = status_to_error(
        401,
        Some(ProblemDetails {
            problem_type: None,
            title: Some("Unauthorized".into()),
            status: Some(401),
            detail: Some("Token expired".into()),
            request_id: Some("req-1".into()),
            code: None,
        }),
    );
    assert!(matches!(e, HermonError::Auth { .. }));
    match e {
        HermonError::Auth { message, request_id } => {
            assert_eq!(message, "Token expired");
            assert_eq!(request_id.as_deref(), Some("req-1"));
        }
        _ => unreachable!(),
    }
}

#[test]
fn status_to_error_403() {
    let e = status_to_error(403, None);
    assert!(matches!(e, HermonError::PolicyDenied { .. }));
}

#[test]
fn status_to_error_429() {
    let e = status_to_error(429, None);
    assert!(matches!(e, HermonError::RateLimited { retry_after_ms: None, .. }));
}

#[test]
fn status_to_error_400() {
    let e = status_to_error(
        400,
        Some(ProblemDetails {
            problem_type: None,
            title: None,
            status: Some(400),
            detail: Some("invalid field".into()),
            request_id: None,
            code: None,
        }),
    );
    assert!(matches!(e, HermonError::Validation { .. }));
}

#[test]
fn status_to_error_500() {
    let e = status_to_error(500, None);
    assert!(matches!(e, HermonError::Server { status: 500, .. }));
    match e {
        HermonError::Server { message, .. } => assert_eq!(message, "HTTP 500"),
        _ => unreachable!(),
    }
}

#[test]
fn status_to_error_other_statuses_are_server_errors() {
    let title_only = ProblemDetails {
        problem_type: None,
        title: Some("Not Found".into()),
        status: Some(404),
        detail: None,
        request_id: None,
        code: Some("E404".into()),
    };
    match status_to_error(404, Some(title_only)) {
        HermonError::Server { status, message, .. } => {
            assert_eq!(status, 404);
            assert_eq!(message, "Not Found");
        }
        _ => panic!("404 maps to a server error"),
    }
}

#[test]
fn default_config() {
    let c = HermonClientConfig::default();
    assert_eq!(c.base_url, "http://localhost:9100");
    assert_eq!(c.retry.max_attempts, 3);
    assert_eq!(c.retry.base_ms, 200);
}

#[test]
fn config_new() {
    let c = HermonClientConfig::new("https://api.hermon.ai");
    assert_eq!(c.base_url, "https://api.hermon.ai");
    assert_eq!(c.user_agent, "hermon-client-rs/0.1.0");
    assert_eq!(c.retry.cap_ms, 10_000);
}

#[test]
fn memory_store_empty() {
    let s = MemoryTokenStore::new();
    assert!(s.get_access().is_none());
    assert!(s.get_refresh().is_none());
    assert!(s.get_api_token().is_none());
}

#[test]
fn memory_store_set_and_get() {
    let mut s = MemoryTokenStore::new();
    let future = now_ms() + 60_000;
    s.set_tokens("access".into(), "refresh".into(), future);
    assert_eq!(s.get_access().unwrap(), "access");
    assert_eq!(s.get_refresh().unwrap(), "refresh");
}

#[test]
fn memory_store_expired() {
    let mut s = MemoryTokenStore::new();
    let past = now_ms() - 1000;
    s.set_tokens("access".into(), "refresh".into(), past);
    assert!(s.get_access().is_none());
    assert_eq!(s.get_refresh().unwrap(), "refresh");
}

#[test]
fn memory_store_api_token() {
    let mut s = MemoryTokenStore::new();
    s.set_api_token("api-key-123".into());
    assert_eq!(s.get_api_token().unwrap(), "api-key-123");
}

#[test]
fn memory_store_clear() {
    let mut s = MemoryTokenStore::new();
    s.set_tokens("a".into(), "r".into(), now_ms() + 60_000);
    s.set_api_token("k".into());
    s.clear();
    assert!(s.get_access().is_none());
    assert!(s.get_refresh().is_none());
    assert!(s.get_api_token().is_none());
}

#[test]
fn access_expires_exactly_at_its_deadline() {
    let mut s = MemoryTokenStore::new();
    s.set_tokens("a".into(), "r".into(), 1_000);
    assert_eq!(s.access_at(999).as_deref(), Some("a"));
    assert_eq!(s.access_at(1_000), None);
}

#[test]
fn backoff_doubles_then_caps() {
    let c = RetryConfig::default();
    assert_eq!(backoff_ms(0, &c), 150);
    assert_eq!(backoff_ms(1, &c), 300);
    assert_eq!(backoff_ms(2, &c), 600);
    assert_eq!(backoff_ms(10, &c), 7_500);
}

#[test]
fn retry_decisions() {
    let c = RetryConfig::default();
    assert_eq!(attempt_budget(true, &c), 3);
    assert_eq!(attempt_budget(false, &c), 1);
    assert_eq!(after_failure(0, 3, true, true, &c), RetryStep::RetryAfter(150));
    assert_eq!(after_failure(1, 3, true, true, &c), RetryStep::RetryAfter(300));
    assert_eq!(after_failure(2, 3, true, true, &c), RetryStep::GiveUp);
    assert_eq!(after_failure(0, 3, true, false, &c), RetryStep::GiveUp);
    assert_eq!(after_failure(0, 3, false, true, &c), RetryStep::GiveUp);
    match attempts_exhausted() {
        HermonError::Network { message, source } => {
            assert_eq!(message, "all retry attempts exhausted");
            assert!(source.is_none());
        }
        _ => panic!("network error expected"),
    }
    assert_eq!(refresh_failed().to_string(), "auth error: authentication failed");
}

#[test]
fn idempotency_and_request_options() {
    assert!(is_idempotent(&HttpMethod::Get));
    assert!(is_idempotent(&HttpMethod::Delete));
    assert!(!is_idempotent(&HttpMethod::Post));
    assert!(!is_idempotent(&HttpMethod::Patch));
    let p = RequestOptions::post("/v1/agents");
    assert!(!p.should_retry());
    assert!(p.with_idempotent(true).should_retry());
    let g = RequestOptions::get("/healthz/live").with_skip_auth(true);
    assert!(g.skip_auth && g.should_retry());
    assert_eq!(g.path, "/healthz/live");
}

#[test]
fn responses_are_classified_by_status() {
    assert_eq!(classify_response(401, false), ResponseAction::RefreshAndRetry);
    assert_eq!(classify_response(401, true), ResponseAction::Problem);
    assert_eq!(classify_response(429, false), ResponseAction::RateLimited);
    assert_eq!(classify_response(204, false), ResponseAction::Success);
    assert_eq!(classify_response(302, false), ResponseAction::Problem);
}

#[test]
fn retry_after_header_is_seconds() {
    assert_eq!(retry_after_from_header("3"), Some(3000));
    assert_eq!(retry_after_from_header("+2"), Some(2000));
    assert_eq!(retry_after_from_header(""), None);
    assert_eq!(retry_after_from_header("1.5"), None);
    assert_eq!(retry_after_from_header("Wed, 21 Oct 2015 07:28:00 GMT"), None);
}

#[test]
fn urls_and_auth_headers() {
    assert_eq!(join_url("https://api.hermon.ai//", "/v1/orgs"), "https://api.hermon.ai/v1/orgs");
    assert_eq!(join_url("http://h", "/x"), "http://h/x");
    assert_eq!(bearer_header(Some("a".into()), Some("k".into())).as_deref(), Some("Bearer a"));
    assert_eq!(bearer_header(None, Some("k".into())).as_deref(), Some("Bearer k"));
    assert_eq!(bearer_header(None, None), None);
}

#[test]
fn lookups_treat_not_found_as_absent() {
    let ok: Result<u32, HermonError> = Ok(7);
    assert_eq!(found_or_none(ok).unwrap(), Some(7));
    let missing: Result<u32, HermonError> =
        Err(HermonError::Server { status: 404, message: "HTTP 404".to_string(), request_id: None });
    assert_eq!(found_or_none(missing).unwrap(), None);
    let broken: Result<u32, HermonError> =
        Err(HermonError::Server { status: 500, message: "HTTP 500".to_string(), request_id: None });
    assert!(matches!(found_or_none(broken), Err(HermonError::Server { status: 500, .. })));
}

#[test]
fn drive_sync_carries_the_cursor() {
    let first = sync_request(None);
    assert_eq!(first.path, "/v1/drive/sync");
    assert!(first.query.is_none());
    let next = sync_request(Some("c42"));
    assert_eq!(next.query.unwrap(), vec![("cursor".to_string(), "c42".to_string())]);
}
