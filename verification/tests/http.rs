use seris::types::SerisError;
use seris::services::http::{
    is_retryable_status, on_outcome, start_fetch, AttemptOutcome, CircuitBreaker, FetchAction,
    FetchState, RequestPolicy, TransportFailure,
};

const MS: u64 = 1_000_000;

fn policy(attempts: u32) -> RequestPolicy {
    RequestPolicy {
        attempts,
        timeout: 1_000 * MS,
        initial_backoff: MS,
    }
}

#[test]
fn retries_until_success_state_machine() {
    let mut breaker = CircuitBreaker::new();
    let policy = policy(2);
    let (action, state) = start_fetch(&mut breaker, "test-retry", &policy, 0);
    assert_eq!(action, FetchAction::Send);
    let (action, state) = on_outcome(&mut breaker, "test-retry", &policy, state, AttemptOutcome::Response(500), 1);
    assert_eq!(action, FetchAction::RetryAfter(MS));
    assert_eq!(state, FetchState { attempt: 1, backoff: 2 * MS });
    let (action, _) = on_outcome(&mut breaker, "test-retry", &policy, state, AttemptOutcome::Response(200), 2);
    assert_eq!(action, FetchAction::Deliver);
}

#[test]
fn last_attempt_timeout_gives_up() {
    let mut breaker = CircuitBreaker::new();
    let policy = policy(1);
    let (_, state) = start_fetch(&mut breaker, "test-timeout", &policy, 0);
    let (action, _) = on_outcome(&mut breaker, "test-timeout", &policy, state, AttemptOutcome::TimedOut, 1);
    assert_eq!(action, FetchAction::FailTimeout);
}

#[test]
fn opens_circuit_after_repeated_failures_state_machine() {
    let mut breaker = CircuitBreaker::new();
    let policy = policy(1);
    for t in 0..3u64 {
        let (action, state) = start_fetch(&mut breaker, "test-circuit", &policy, t);
        assert_eq!(action, FetchAction::Send);
        let (action, _) = on_outcome(&mut breaker, "test-circuit", &policy, state, AttemptOutcome::Response(500), t);
        assert_eq!(action, FetchAction::FailStatus(500));
    }
    let (action, _) = start_fetch(&mut breaker, "test-circuit", &policy, 3);
    assert_eq!(action, FetchAction::FailCircuitOpen);
    let (action, _) = start_fetch(&mut breaker, "other-service", &policy, 3);
    assert_eq!(action, FetchAction::Send);
    let later = 2 + 30_000 * MS;
    let (action, _) = start_fetch(&mut breaker, "test-circuit", &policy, later);
    assert_eq!(action, FetchAction::Send);
}

#[test]
fn circuit_success_clears_failures() {
    let mut breaker = CircuitBreaker::new();
    breaker.record_failure("svc", 0);
    breaker.record_failure("svc", 0);
    breaker.record_success("svc");
    breaker.record_failure("svc", 0);
    breaker.record_failure("svc", 0);
    assert!(!breaker.circuit_is_open("svc", 0));
    breaker.record_failure("svc", 0);
    assert!(breaker.circuit_is_open("svc", 0));
}

#[test]
fn retry_rules() {
    assert!(is_retryable_status(429));
    assert!(is_retryable_status(500));
    assert!(is_retryable_status(599));
    assert!(!is_retryable_status(404));
    assert!(!is_retryable_status(600));

    let mut breaker = CircuitBreaker::new();
    let policy = policy(3);
    let state = FetchState { attempt: 0, backoff: MS };
    let (action, _) = on_outcome(&mut breaker, "s", &policy, state, AttemptOutcome::Response(404), 0);
    assert_eq!(action, FetchAction::FailStatus(404));
    let fatal = TransportFailure { timeout: false, connect: false, request: false, body: false };
    let (action, _) = on_outcome(&mut breaker, "s", &policy, state, AttemptOutcome::Transport(fatal), 0);
    assert_eq!(action, FetchAction::FailTransport);
    let flaky = TransportFailure { timeout: false, connect: true, request: false, body: false };
    let (action, next) = on_outcome(&mut breaker, "s", &policy, state, AttemptOutcome::Transport(flaky), 0);
    assert_eq!(action, FetchAction::RetryAfter(MS));
    assert_eq!(next.attempt, 1);
    let none = RequestPolicy { attempts: 0, ..policy };
    let (action, _) = start_fetch(&mut breaker, "t", &none, 0);
    assert_eq!(action, FetchAction::FailTimeout);
}

#[test]
fn backoff_doubles_and_saturates() {
    let mut breaker = CircuitBreaker::new();
    let policy = RequestPolicy { attempts: 10, timeout: MS, initial_backoff: u64::MAX / 2 + 1 };
    let state = FetchState { attempt: 0, backoff: policy.initial_backoff };
    let (_, next) = on_outcome(&mut breaker, "s", &policy, state, AttemptOutcome::TimedOut, 0);
    assert_eq!(next.backoff, u64::MAX);
    assert_eq!(RequestPolicy::default(), RequestPolicy { attempts: 3, timeout: 3_000 * MS, initial_backoff: 200 * MS });
}

#[test]
fn error_messages() {
    assert_eq!(SerisError::Timeout { service: "test-timeout" }.message(), "request to test-timeout timed out");
    assert_eq!(
        SerisError::CircuitOpen { service: "test-circuit" }.message(),
        "service test-circuit is temporarily unavailable"
    );
    assert_eq!(
        SerisError::HttpStatus { service: "jikan", status: 500 }.message(),
        "request to jikan failed with status 500 Internal Server Error"
    );
    assert_eq!(
        SerisError::HttpStatus { service: "jikan", status: 599 }.message(),
        "request to jikan failed with status 599 <unknown status code>"
    );
    assert_eq!(
        SerisError::InvalidConfig { field: "discord_token", reason: "must not be empty" }.message(),
        "invalid configuration for discord_token: must not be empty"
    );
    assert_eq!(
        SerisError::Update { message: "no asset".to_string() }.message(),
        "self-update failed: no asset"
    );
}
