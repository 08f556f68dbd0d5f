use universal_nft::circuit_breaker::{
    CircuitBreaker, CircuitConfig, CircuitState, OperationType,
};
use universal_nft::errors::UniversalNftError;

fn fresh_breaker(config: Option<CircuitConfig>, now: i64) -> CircuitBreaker {
    let mut breaker = CircuitBreaker {
        state: CircuitState::Closed,
        failure_count: 0,
        success_count: 0,
        window_start: 0,
        last_state_change: 0,
        config: CircuitConfig::default(),
        authority: [1u8; 32],
        bump: 0,
    };
    breaker.initialize([1u8; 32], config, 0, now);
    breaker
}

#[test]
fn threshold_failures_in_window_open_the_circuit() {
    // Scenario: threshold 5, window 300 seconds; five failures within 100
    // seconds trip the breaker; the next admission check is rejected.
    let config = CircuitConfig { failure_threshold: 5, failure_window: 300, ..CircuitConfig::default() };
    let mut breaker = fresh_breaker(Some(config), 1000);

    for i in 0..5 {
        assert_eq!(breaker.state, CircuitState::Closed);
        breaker.record_failure(1000 + i * 20);
    }
    assert_eq!(breaker.state, CircuitState::Open);

    assert_eq!(
        breaker.check_operation_allowed(OperationType::CrossChainTransfer, 1101),
        Err(UniversalNftError::CircuitBreakerOpen)
    );
    assert_eq!(breaker.state, CircuitState::Open);
}

#[test]
fn open_circuit_probes_only_after_min_open_duration() {
    let config = CircuitConfig {
        failure_threshold: 2,
        failure_window: 300,
        min_open_duration: 600,
        ..CircuitConfig::default()
    };
    let mut breaker = fresh_breaker(Some(config), 0);
    breaker.record_failure(10);
    breaker.record_failure(20);
    assert_eq!(breaker.state, CircuitState::Open);
    assert_eq!(breaker.last_state_change, 20);

    // One second before the minimum open duration: still rejected.
    assert_eq!(
        breaker.check_operation_allowed(OperationType::NFTMinting, 619),
        Err(UniversalNftError::CircuitBreakerOpen)
    );
    assert_eq!(breaker.state, CircuitState::Open);

    // Exactly at the minimum open duration: the probe is admitted.
    assert_eq!(breaker.check_operation_allowed(OperationType::NFTMinting, 620), Ok(()));
    assert_eq!(breaker.state, CircuitState::HalfOpen);
}

#[test]
fn half_open_closes_after_clean_successes() {
    let config = CircuitConfig {
        failure_threshold: 2,
        success_threshold: 3,
        min_open_duration: 100,
        failure_window: 1000,
        half_open_limit: 10,
    };
    let mut breaker = fresh_breaker(Some(config), 0);
    breaker.record_failure(1);
    breaker.record_failure(2);
    assert_eq!(breaker.state, CircuitState::Open);
    assert_eq!(breaker.check_operation_allowed(OperationType::MetadataUpdate, 200), Ok(()));
    assert_eq!(breaker.state, CircuitState::HalfOpen);

    breaker.record_success(210);
    breaker.record_success(220);
    assert_eq!(breaker.state, CircuitState::HalfOpen);
    breaker.record_success(230);
    assert_eq!(breaker.state, CircuitState::Closed);
    assert_eq!(breaker.failure_count, 0);
    assert_eq!(breaker.success_count, 0);
}

#[test]
fn half_open_rate_limit_rejects_beyond_cap() {
    let config = CircuitConfig {
        failure_threshold: 2,
        success_threshold: 100,
        min_open_duration: 100,
        failure_window: 100_000,
        half_open_limit: 2,
    };
    let mut breaker = fresh_breaker(Some(config), 0);
    breaker.record_failure(1);
    breaker.record_failure(2);
    assert_eq!(breaker.check_operation_allowed(OperationType::MetadataUpdate, 200), Ok(()));
    assert_eq!(breaker.state, CircuitState::HalfOpen);
    breaker.record_success(201);
    breaker.record_success(202);
    assert_eq!(
        breaker.check_operation_allowed(OperationType::MetadataUpdate, 203),
        Err(UniversalNftError::CircuitBreakerRateLimit)
    );
}

#[test]
fn window_reset_clears_counts() {
    let config = CircuitConfig { failure_threshold: 5, failure_window: 300, ..CircuitConfig::default() };
    let mut breaker = fresh_breaker(Some(config), 0);
    breaker.record_failure(10);
    breaker.record_failure(20);
    assert_eq!(breaker.failure_count, 2);

    // The window elapses; the next report starts a fresh count.
    breaker.record_failure(320);
    assert_eq!(breaker.failure_count, 1);
    assert_eq!(breaker.window_start, 320);
    assert_eq!(breaker.state, CircuitState::Closed);
}

#[test]
fn manual_override_admits_everything_until_disabled() {
    let mut breaker = fresh_breaker(None, 0);
    breaker.set_manual_override(true, 5);
    assert_eq!(breaker.state, CircuitState::ManualOverride);

    // Failures are not counted while overridden.
    for i in 0..10 {
        breaker.record_failure(10 + i);
    }
    assert_eq!(breaker.failure_count, 0);
    assert_eq!(breaker.check_operation_allowed(OperationType::SignatureVerification, 30), Ok(()));
    assert_eq!(breaker.state, CircuitState::ManualOverride);

    breaker.set_manual_override(false, 40);
    assert_eq!(breaker.state, CircuitState::Closed);
    assert_eq!(breaker.failure_count, 0);
    assert_eq!(breaker.last_state_change, 40);
}

#[test]
fn health_metrics_are_idempotent_and_exact() {
    let mut breaker = fresh_breaker(None, 0);
    breaker.record_success(10);
    breaker.record_success(20);
    breaker.record_failure(30);

    let first = breaker.get_health_metrics(100);
    let second = breaker.get_health_metrics(100);
    assert_eq!(first, second);

    assert_eq!(first.total_operations, 3);
    assert_eq!(first.failures_in_window, 1);
    // Two successes out of three operations: 6666 basis points.
    assert_eq!(first.success_rate_bps, 6666);
    assert_eq!(first.time_in_current_state, 100);

    let empty = fresh_breaker(None, 0).get_health_metrics(0);
    assert_eq!(empty.success_rate_bps, 10000);
}
