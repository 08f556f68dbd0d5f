use universal_nft::errors::UniversalNftError;
use universal_nft::transaction_retry::{
    AttemptResult, CongestionLevel, NetworkConditionAnalyzer, RetryConfig, RetryFailureReason,
    RetrySession, RetrySessionStatus, TransactionRetryManager,
};

fn fresh_manager() -> TransactionRetryManager {
    let mut manager = TransactionRetryManager {
        authority: [3u8; 32],
        total_retry_attempts: 0,
        successful_retries: 0,
        failed_retries: 0,
        active_retry_sessions: 0,
        max_concurrent_sessions: 0,
        default_config: RetryConfig::default(),
        adaptive_retry_enabled: false,
        last_retry_attempt: 0,
        bump: 0,
    };
    manager.initialize([3u8; 32], RetryConfig::default(), 0).unwrap();
    manager
}

fn empty_session() -> RetrySession {
    RetrySession {
        session_id: 0,
        original_tx_signature: String::new(),
        retry_config: RetryConfig::default(),
        current_attempt: 0,
        status: RetrySessionStatus::Paused,
        failure_reasons: Vec::new(),
        started_at: 0,
        last_attempt_at: 0,
        next_retry_at: 0,
        total_retry_time: 0,
        total_compute_units: 0,
        total_fees_spent: 0,
        successful_tx_signature: None,
        optimizations_applied: Vec::new(),
        bump: 0,
    }
}

#[test]
fn schedule_opens_a_session_and_counts_it() {
    let mut manager = fresh_manager();
    let mut session = empty_session();
    let outcome = manager.schedule_retry(
        &mut session,
        7,
        String::from("original-tx"),
        RetryFailureReason::NetworkTimeout,
        None,
        1000,
    );
    assert_eq!(outcome, Ok(()));
    assert_eq!(session.session_id, 7);
    assert_eq!(session.status, RetrySessionStatus::Scheduled);
    assert_eq!(session.current_attempt, 0);
    assert_eq!(session.failure_reasons, vec![RetryFailureReason::NetworkTimeout]);
    assert_eq!(manager.active_retry_sessions, 1);
    assert!(session.next_retry_at > 1000);
}

#[test]
fn scheduling_beyond_the_cap_fails() {
    let mut manager = fresh_manager();
    manager.active_retry_sessions = manager.max_concurrent_sessions;
    let mut session = empty_session();
    assert_eq!(
        manager.schedule_retry(
            &mut session,
            1,
            String::from("tx"),
            RetryFailureReason::UnknownError,
            None,
            1000,
        ),
        Err(UniversalNftError::InvalidTransferStatus)
    );
    assert_eq!(session.status, RetrySessionStatus::Paused);
}

#[test]
fn three_failures_finalize_the_session_and_a_fourth_never_runs() {
    // Scenario: three attempts, initial delay 2 seconds, 2.0x multiplier;
    // three consecutive failures leave the session failed after attempt 3.
    let config = RetryConfig {
        max_attempts: 3,
        initial_delay_seconds: 2,
        backoff_multiplier_bps: 20000,
        ..RetryConfig::default()
    };
    let mut manager = fresh_manager();
    let mut session = empty_session();
    // Session id 85: the simulated attempt fails while the success
    // percentage is below 86, which covers attempts 1 to 3.
    manager
        .schedule_retry(
            &mut session,
            85,
            String::from("tx"),
            RetryFailureReason::NetworkTimeout,
            Some(config),
            1000,
        )
        .unwrap();

    for attempt in 1..=3u8 {
        let due = session.next_retry_at;
        let result = manager.execute_retry_attempt(&mut session, due).unwrap();
        assert_eq!(result.result, AttemptResult::Failed);
        assert_eq!(session.current_attempt, attempt);
    }
    assert_eq!(session.status, RetrySessionStatus::Failed);
    assert_eq!(manager.failed_retries, 1);
    assert_eq!(manager.active_retry_sessions, 0);

    // A fourth attempt is refused outright.
    let much_later = session.next_retry_at + 10_000;
    assert!(manager.execute_retry_attempt(&mut session, much_later).is_err());
    assert_eq!(session.current_attempt, 3);
}

#[test]
fn successful_attempt_finalizes_the_session() {
    let mut manager = fresh_manager();
    let mut session = empty_session();
    // Session id 10: the first simulated attempt succeeds (10 < 30).
    manager
        .schedule_retry(
            &mut session,
            10,
            String::from("tx"),
            RetryFailureReason::NodeOverloaded,
            None,
            1000,
        )
        .unwrap();
    let due = session.next_retry_at;
    let result = manager.execute_retry_attempt(&mut session, due).unwrap();
    assert_eq!(result.result, AttemptResult::Success);
    assert_eq!(session.status, RetrySessionStatus::Successful);
    assert_eq!(session.successful_tx_signature.as_deref(), Some("retry-success-10"));
    assert_eq!(session.total_compute_units, 180_000);
    assert_eq!(session.total_fees_spent, 5000);
    assert_eq!(session.optimizations_applied.len(), 1);
    assert_eq!(manager.successful_retries, 1);
    assert_eq!(manager.active_retry_sessions, 0);
}

#[test]
fn attempt_before_schedule_time_is_refused() {
    let mut manager = fresh_manager();
    let mut session = empty_session();
    manager
        .schedule_retry(&mut session, 85, String::from("tx"), RetryFailureReason::NetworkTimeout, None, 1000)
        .unwrap();
    let too_early = session.next_retry_at - 1;
    assert!(manager.execute_retry_attempt(&mut session, too_early).is_err());
    assert_eq!(session.current_attempt, 0);
}

#[test]
fn backoff_delays_are_non_decreasing_until_the_cap() {
    let config = RetryConfig {
        max_attempts: 10,
        initial_delay_seconds: 2,
        backoff_multiplier_bps: 20000,
        max_delay_seconds: 60,
        jitter_percentage_bps: 0,
        ..RetryConfig::default()
    };
    let manager = fresh_manager();
    let mut session = empty_session();
    session.retry_config = config;
    session.session_id = 1000;  // seed % 1000 == 0: no jitter either way

    let mut delays = Vec::new();
    for attempt in 1..=8u8 {
        session.current_attempt = attempt;
        delays.push(manager.calculate_exponential_backoff_delay(&session));
    }
    assert_eq!(delays, vec![2, 4, 8, 16, 32, 60, 60, 60]);
    for pair in delays.windows(2) {
        assert!(pair[0] <= pair[1]);
    }
}

#[test]
fn jitter_is_seeded_by_the_session_id() {
    let config = RetryConfig {
        initial_delay_seconds: 40,
        backoff_multiplier_bps: 10000,
        max_delay_seconds: 60,
        jitter_percentage_bps: 1000,
        ..RetryConfig::default()
    };
    let manager = fresh_manager();
    let mut session = empty_session();
    session.retry_config = config;
    session.current_attempt = 1;

    session.session_id = 2000;  // seed 0: no jitter
    assert_eq!(manager.calculate_exponential_backoff_delay(&session), 40);
    session.session_id = 2500;  // seed 500: half the 10% jitter range
    assert_eq!(manager.calculate_exponential_backoff_delay(&session), 42);
}

#[test]
fn adaptive_parameters_follow_the_failure_reason() {
    let conditions = NetworkConditionAnalyzer::analyze_conditions();
    assert_eq!(conditions.congestion_level, CongestionLevel::Medium);

    let timeout =
        NetworkConditionAnalyzer::calculate_optimal_parameters(&conditions, &RetryFailureReason::NetworkTimeout, 1);
    // Base 5, multiplier 2.0x, attempt factor 1.
    assert_eq!(timeout.delay_seconds, 10);
    assert_eq!(timeout.priority_fee_adjustment_pct, 10);
    assert!(!timeout.should_refresh_blockhash);

    let overloaded =
        NetworkConditionAnalyzer::calculate_optimal_parameters(&conditions, &RetryFailureReason::NodeOverloaded, 1);
    assert_eq!(overloaded.delay_seconds, 15);
    assert_eq!(overloaded.priority_fee_adjustment_pct, 100);

    let expired =
        NetworkConditionAnalyzer::calculate_optimal_parameters(&conditions, &RetryFailureReason::BlockhashExpired, 1);
    assert_eq!(expired.delay_seconds, 2);
    assert!(expired.should_refresh_blockhash);

    let compute = NetworkConditionAnalyzer::calculate_optimal_parameters(
        &conditions,
        &RetryFailureReason::InsufficientComputeUnits,
        4,
    );
    // Attempt factor is the power-3/2 growth: floor(sqrt(64)) = 8.
    assert_eq!(compute.delay_seconds, 60);
    assert_eq!(compute.compute_unit_adjustment_pct, 25);
}

#[test]
fn cancelling_a_scheduled_session_releases_its_slot() {
    let mut manager = fresh_manager();
    let mut session = empty_session();
    manager
        .schedule_retry(&mut session, 85, String::from("tx"), RetryFailureReason::NetworkTimeout, None, 1000)
        .unwrap();
    assert_eq!(manager.active_retry_sessions, 1);
    assert_eq!(manager.cancel_retry_session(&mut session), Ok(()));
    assert_eq!(session.status, RetrySessionStatus::Cancelled);
    assert_eq!(manager.active_retry_sessions, 0);

    // A finished session cannot be cancelled.
    assert_eq!(
        manager.cancel_retry_session(&mut session),
        Err(UniversalNftError::InvalidTransferStatus)
    );
}

#[test]
fn retry_stats_are_idempotent_and_exact() {
    let mut manager = fresh_manager();
    manager.successful_retries = 3;
    manager.failed_retries = 1;
    manager.total_retry_attempts = 9;

    let first = manager.get_retry_stats();
    let second = manager.get_retry_stats();
    assert_eq!(first, second);
    assert_eq!(first.success_rate_bps, 7500);
    assert_eq!(first.total_retry_attempts, 9);

    let empty = fresh_manager().get_retry_stats();
    assert_eq!(empty.success_rate_bps, 10000);
}

#[test]
fn update_config_replaces_the_default() {
    let mut manager = fresh_manager();
    let new_config = RetryConfig { max_attempts: 2, ..RetryConfig::default() };
    manager.update_retry_config(new_config).unwrap();
    assert_eq!(manager.default_config.max_attempts, 2);
}
