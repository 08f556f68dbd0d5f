use universal_nft::error_recovery::{
    CompensationType, ErrorRecoveryManager, ErrorType, OperationContext, RecoveryConfig,
    RecoveryResult, RecoverySession, RecoveryStatus, RecoveryStrategy, ResourceUsage,
};
use universal_nft::errors::UniversalNftError;

fn fresh_manager(config: RecoveryConfig) -> ErrorRecoveryManager {
    let mut manager = ErrorRecoveryManager {
        authority: [4u8; 32],
        total_recovery_attempts: 0,
        successful_recoveries: 0,
        failed_recoveries: 0,
        active_recovery_sessions: 0,
        max_concurrent_sessions: 0,
        recovery_success_rate_bps: 0,
        auto_recovery_enabled: false,
        aggressive_mode: false,
        last_recovery_attempt: 0,
        stats_reset_at: 0,
        bump: 0,
    };
    manager.initialize([4u8; 32], config, 0, 100).unwrap();
    manager
}

fn context(fees_paid: u64, compute_units_used: u32) -> OperationContext {
    OperationContext {
        operation_type: String::from("cross-chain transfer"),
        user: [6u8; 32],
        nft_mint: None,
        target_chain: Some(7000),
        failed_signature: Some(String::from("failed-tx")),
        compute_units_used,
        fees_paid,
    }
}

fn empty_session(session_id: u64) -> RecoverySession {
    RecoverySession {
        session_id,
        original_error: ErrorType::TransactionFailed,
        recovery_strategy: RecoveryStrategy::ExponentialBackoff,
        operation_context: context(0, 0),
        attempts_made: 0,
        max_attempts: 0,
        status: RecoveryStatus::Cancelled,
        started_at: 0,
        completed_at: None,
        actions_taken: Vec::new(),
        outcome: None,
        resources_consumed: ResourceUsage {
            compute_units: 0,
            fees_spent: 0,
            duration_seconds: 0,
            network_requests: 0,
        },
        bump: 0,
    }
}

#[test]
fn strategies_follow_the_error_class() {
    let manager = fresh_manager(RecoveryConfig::default());
    assert_eq!(
        manager.determine_recovery_strategy(ErrorType::NetworkTimeout, 0),
        RecoveryStrategy::ExponentialBackoff
    );
    assert_eq!(
        manager.determine_recovery_strategy(ErrorType::InsufficientFunds, 0),
        RecoveryStrategy::CompensatingTransaction
    );
    assert_eq!(
        manager.determine_recovery_strategy(ErrorType::StateCorruption, 0),
        RecoveryStrategy::StateReconstruction
    );
    assert_eq!(
        manager.determine_recovery_strategy(ErrorType::SecurityViolation, 0),
        RecoveryStrategy::ManualIntervention
    );
    assert_eq!(
        manager.determine_recovery_strategy(ErrorType::TransactionFailed, 150_000),
        RecoveryStrategy::ExponentialBackoff
    );
    assert_eq!(
        manager.determine_recovery_strategy(ErrorType::TransactionFailed, 150_001),
        RecoveryStrategy::ParameterAdjustment
    );
    assert_eq!(
        manager.determine_recovery_strategy(ErrorType::ConcurrencyConflict, 0),
        RecoveryStrategy::RollbackRetry
    );
    assert_eq!(
        manager.determine_recovery_strategy(ErrorType::SystemOverload, 0),
        RecoveryStrategy::GracefulDegradation
    );
}

#[test]
fn attempt_budgets_double_under_aggressive_mode_capped_at_ten() {
    let normal = fresh_manager(RecoveryConfig::default());
    assert_eq!(normal.calculate_max_attempts(ErrorType::NetworkTimeout, RecoveryStrategy::ExponentialBackoff), 5);
    assert_eq!(normal.calculate_max_attempts(ErrorType::SecurityViolation, RecoveryStrategy::ManualIntervention), 1);

    let aggressive = fresh_manager(RecoveryConfig { aggressive_mode: true, ..RecoveryConfig::default() });
    assert_eq!(aggressive.calculate_max_attempts(ErrorType::NetworkTimeout, RecoveryStrategy::ExponentialBackoff), 10);
    assert_eq!(aggressive.calculate_max_attempts(ErrorType::ComputeExceeded, RecoveryStrategy::ParameterAdjustment), 4);
    assert_eq!(aggressive.calculate_max_attempts(ErrorType::SecurityViolation, RecoveryStrategy::ManualIntervention), 2);
}

#[test]
fn initiation_requires_auto_recovery_and_a_free_slot() {
    let mut disabled = fresh_manager(RecoveryConfig { auto_recovery_enabled: false, ..RecoveryConfig::default() });
    let mut session = empty_session(1);
    assert_eq!(
        disabled.initiate_recovery(&mut session, 1, ErrorType::NetworkTimeout, context(10, 0), 100),
        Err(UniversalNftError::InvalidTransferStatus)
    );

    let mut full = fresh_manager(RecoveryConfig { max_concurrent_sessions: 0, ..RecoveryConfig::default() });
    assert_eq!(
        full.initiate_recovery(&mut session, 1, ErrorType::NetworkTimeout, context(10, 0), 100),
        Err(UniversalNftError::InvalidTransferStatus)
    );

    let mut manager = fresh_manager(RecoveryConfig::default());
    assert_eq!(
        manager.initiate_recovery(&mut session, 1, ErrorType::NetworkTimeout, context(10, 0), 100),
        Ok(())
    );
    assert_eq!(session.status, RecoveryStatus::InProgress);
    assert_eq!(session.max_attempts, 5);
    assert_eq!(session.recovery_strategy, RecoveryStrategy::ExponentialBackoff);
    assert_eq!(manager.active_recovery_sessions, 1);
    assert_eq!(manager.total_recovery_attempts, 1);
}

#[test]
fn compensating_transaction_recovers_in_one_attempt() {
    let mut manager = fresh_manager(RecoveryConfig::default());
    let mut session = empty_session(0);
    // Session id 0: the compensating-transaction stand-in succeeds (0 < 9).
    manager
        .initiate_recovery(&mut session, 0, ErrorType::InsufficientFunds, context(1000, 0), 100)
        .unwrap();
    let success = manager.execute_recovery_attempt(&mut session, 150).unwrap();
    assert!(success);
    assert_eq!(session.status, RecoveryStatus::Successful);
    assert_eq!(session.attempts_made, 1);
    assert_eq!(session.completed_at, Some(150));
    assert_eq!(session.resources_consumed.duration_seconds, 50);
    assert_eq!(session.actions_taken.len(), 1);
    assert_eq!(session.actions_taken[0].parameters, "attempt 1 of 3");

    let outcome = session.outcome.as_ref().unwrap();
    assert_eq!(outcome.result, RecoveryResult::FullRecovery);
    // A full recovery owes no compensation.
    assert!(outcome.compensation.is_none());

    assert_eq!(manager.successful_recoveries, 1);
    assert_eq!(manager.active_recovery_sessions, 0);
    assert_eq!(manager.recovery_success_rate_bps, 10000);
}

#[test]
fn security_violation_goes_to_manual_intervention_with_double_compensation() {
    let mut manager = fresh_manager(RecoveryConfig::default());
    let mut session = empty_session(3);
    manager
        .initiate_recovery(&mut session, 3, ErrorType::SecurityViolation, context(1000, 0), 100)
        .unwrap();
    assert_eq!(session.recovery_strategy, RecoveryStrategy::ManualIntervention);
    assert_eq!(session.max_attempts, 1);

    // Manual intervention never auto-executes; the single budgeted attempt
    // exhausts the session as an unrecoverable failure.
    let success = manager.execute_recovery_attempt(&mut session, 160).unwrap();
    assert!(!success);
    assert_eq!(session.status, RecoveryStatus::Failed);
    let outcome = session.outcome.as_ref().unwrap();
    assert_eq!(outcome.result, RecoveryResult::UnrecoverableFailure);
    let compensation = outcome.compensation.as_ref().unwrap();
    assert_eq!(compensation.compensation_type, CompensationType::TokenCompensation);
    assert_eq!(compensation.amount, 2000);
    assert_eq!(manager.failed_recoveries, 1);
    assert_eq!(manager.recovery_success_rate_bps, 0);
}

#[test]
fn exhausted_attempts_compensate_from_fees_paid() {
    let mut manager = fresh_manager(RecoveryConfig::default());
    // Session id 9: every stand-in fails (9 % 10 == 9 misses every
    // threshold except the two 9-of-ten strategies; pick state corruption,
    // whose threshold is 5).
    let mut session = empty_session(9);
    manager
        .initiate_recovery(&mut session, 9, ErrorType::StateCorruption, context(500, 0), 100)
        .unwrap();
    assert_eq!(session.max_attempts, 3);
    for _ in 0..3 {
        let success = manager.execute_recovery_attempt(&mut session, 200).unwrap();
        assert!(!success);
    }
    assert_eq!(session.status, RecoveryStatus::Failed);
    let outcome = session.outcome.as_ref().unwrap();
    assert_eq!(outcome.result, RecoveryResult::UnrecoverableFailure);
    assert_eq!(outcome.compensation.as_ref().unwrap().amount, 1000);

    // The session is finished; further attempts are refused.
    assert!(manager.execute_recovery_attempt(&mut session, 300).is_err());
}

#[test]
fn lessons_learned_follow_the_error_class() {
    let mut manager = fresh_manager(RecoveryConfig::default());
    let mut session = empty_session(0);
    manager
        .initiate_recovery(&mut session, 0, ErrorType::CrossChainTimeout, context(10, 0), 100)
        .unwrap();
    manager.execute_recovery_attempt(&mut session, 110).unwrap();
    let outcome = session.outcome.as_ref().unwrap();
    assert_eq!(outcome.lessons_learned, "Optimize cross-chain message routing and timeouts");
}

#[test]
fn recovery_stats_are_idempotent_and_exact() {
    let mut manager = fresh_manager(RecoveryConfig::default());
    manager.successful_recoveries = 3;
    manager.failed_recoveries = 1;
    manager.total_recovery_attempts = 8;
    manager.recovery_success_rate_bps = 7500;

    let first = manager.get_recovery_stats();
    let second = manager.get_recovery_stats();
    assert_eq!(first, second);
    assert_eq!(first.avg_attempts_per_session, 2);
    assert_eq!(first.success_rate_bps, 7500);

    let empty = fresh_manager(RecoveryConfig::default()).get_recovery_stats();
    assert_eq!(empty.success_rate_bps, 10000);
    assert_eq!(empty.avg_attempts_per_session, 0);
}
