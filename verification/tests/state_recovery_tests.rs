use universal_nft::errors::UniversalNftError;
use universal_nft::state_recovery::{
    CheckpointType, RecoveryPhase, RecoverySessionStatus, RecoveryStrategy, RecoveryType,
    StateCheckpoint, StateMetrics, StateRecoveryConfig, StateRecoveryManager, StateRecoverySession,
    ValidationStatus,
};

fn fresh_manager(config: StateRecoveryConfig, now: i64) -> StateRecoveryManager {
    let mut manager = StateRecoveryManager {
        authority: [5u8; 32],
        total_checkpoints: 0,
        total_recoveries: 0,
        successful_recoveries: 0,
        failed_recoveries: 0,
        checkpoint_interval: 0,
        last_checkpoint: 0,
        auto_recovery_enabled: false,
        validation_frequency: 0,
        operations_since_validation: 0,
        recovery_mode_active: false,
        bump: 0,
    };
    manager.initialize([5u8; 32], config, 0, now).unwrap();
    manager
}

fn metrics(integrity_score: u8) -> StateMetrics {
    StateMetrics {
        total_nfts: 1234,
        active_transfers: 7,
        unique_users: 42,
        uptime_seconds: 1000,
        memory_usage_bytes: 4096,
        integrity_score,
    }
}

fn empty_checkpoint() -> StateCheckpoint {
    StateCheckpoint {
        checkpoint_id: 0,
        created_at: 0,
        state_hash: [0u8; 32],
        checkpoint_type: CheckpointType::Periodic,
        operations_since_last: 0,
        state_metrics: metrics(0),
        validation_status: ValidationStatus::Unknown,
        checkpoint_size: 0,
        recovery_priority: 0,
        recovery_session_id: None,
        bump: 0,
    }
}

fn empty_session() -> StateRecoverySession {
    StateRecoverySession {
        session_id: 0,
        recovery_type: RecoveryType::FullRestore,
        source_checkpoint_id: 0,
        target_state_hash: [0u8; 32],
        current_phase: RecoveryPhase::Initialization,
        progress_percentage: 0,
        started_at: 0,
        estimated_completion: 0,
        status: RecoverySessionStatus::Cancelled,
        blocks_recovered: 0,
        total_blocks: 0,
        errors_encountered: 0,
        strategy: RecoveryStrategy::BackwardRecovery,
        bump: 0,
    }
}

#[test]
fn checkpoint_digests_the_metrics_deterministically() {
    let mut manager = fresh_manager(StateRecoveryConfig::default(), 100);
    let mut checkpoint = empty_checkpoint();
    manager
        .create_checkpoint(&mut checkpoint, CheckpointType::Emergency, metrics(97), 500)
        .unwrap();

    assert_eq!(checkpoint.checkpoint_id, 0);
    assert_eq!(checkpoint.created_at, 500);
    assert_eq!(checkpoint.validation_status, ValidationStatus::Valid);
    assert_eq!(checkpoint.recovery_priority, 100);
    assert_eq!(manager.total_checkpoints, 1);
    assert_eq!(manager.last_checkpoint, 500);

    // The hash is the run-together decimal text of the load-bearing
    // metrics and the timestamp, zero-padded to 32 bytes.
    let text = format!("{}{}{}{}{}", 1234, 7, 42, 97, 500);
    let mut expected = [0u8; 32];
    for (i, byte) in text.bytes().enumerate().take(32) {
        expected[i] = byte;
    }
    assert_eq!(checkpoint.state_hash, expected);

    // Same inputs, same hash.
    let mut second = empty_checkpoint();
    let mut manager2 = fresh_manager(StateRecoveryConfig::default(), 100);
    manager2.create_checkpoint(&mut second, CheckpointType::Emergency, metrics(97), 500).unwrap();
    assert_eq!(second.state_hash, checkpoint.state_hash);
}

#[test]
fn validation_status_steps_by_integrity() {
    let manager = fresh_manager(StateRecoveryConfig::default(), 0);
    assert_eq!(manager.validate_current_state(&metrics(95)), ValidationStatus::Valid);
    assert_eq!(manager.validate_current_state(&metrics(94)), ValidationStatus::CorruptedMinor);
    assert_eq!(manager.validate_current_state(&metrics(80)), ValidationStatus::CorruptedMinor);
    assert_eq!(manager.validate_current_state(&metrics(79)), ValidationStatus::CorruptedMajor);
    assert_eq!(manager.validate_current_state(&metrics(50)), ValidationStatus::CorruptedMajor);
    assert_eq!(manager.validate_current_state(&metrics(49)), ValidationStatus::Inconsistent);
}

#[test]
fn recovery_runs_through_all_phases_in_order() {
    let mut manager = fresh_manager(StateRecoveryConfig::default(), 0);
    let mut session = empty_session();
    assert_eq!(
        manager.initiate_recovery(&mut session, 11, RecoveryType::FullRestore, 0, [9u8; 32], 50),
        Ok(())
    );
    assert!(manager.recovery_mode_active);
    assert_eq!(session.strategy, RecoveryStrategy::BackwardRecovery);
    assert_eq!(session.total_blocks, 1000);

    let expected_phases = [
        (RecoveryPhase::Validation, 20u8),
        (RecoveryPhase::DataRetrieval, 40),
        (RecoveryPhase::StateReconstruction, 70),
        (RecoveryPhase::ConsistencyCheck, 90),
        (RecoveryPhase::Finalization, 95),
        (RecoveryPhase::Complete, 100),
    ];
    for (phase, progress) in expected_phases {
        let done = manager.execute_recovery_phase(&mut session).unwrap();
        assert_eq!(session.current_phase, phase);
        assert_eq!(session.progress_percentage, progress);
        assert_eq!(done, phase == RecoveryPhase::Complete);
    }
    assert_eq!(session.blocks_recovered, 1000);

    assert_eq!(manager.complete_recovery_session(&mut session, true), Ok(()));
    assert_eq!(session.status, RecoverySessionStatus::Completed);
    assert!(!manager.recovery_mode_active);
    assert_eq!(manager.successful_recoveries, 1);
}

#[test]
fn only_one_recovery_session_runs_at_a_time() {
    let mut manager = fresh_manager(StateRecoveryConfig::default(), 0);
    let mut session = empty_session();
    manager.initiate_recovery(&mut session, 1, RecoveryType::PartialRestore, 0, [0u8; 32], 50).unwrap();
    let mut second = empty_session();
    assert_eq!(
        manager.initiate_recovery(&mut second, 2, RecoveryType::IndexRebuild, 0, [0u8; 32], 60),
        Err(UniversalNftError::InvalidTransferStatus)
    );
}

#[test]
fn strategies_follow_the_recovery_type() {
    let manager = fresh_manager(StateRecoveryConfig::default(), 0);
    assert_eq!(
        manager.determine_recovery_strategy(RecoveryType::FullRestore),
        RecoveryStrategy::BackwardRecovery
    );
    assert_eq!(
        manager.determine_recovery_strategy(RecoveryType::PartialRestore),
        RecoveryStrategy::HybridRecovery
    );
    assert_eq!(
        manager.determine_recovery_strategy(RecoveryType::StateReconstruction),
        RecoveryStrategy::ReconstructionRecovery
    );
    assert_eq!(
        manager.determine_recovery_strategy(RecoveryType::ConsistencyRepair),
        RecoveryStrategy::ForwardRecovery
    );
}

#[test]
fn failed_recovery_keeps_progress_and_counts() {
    let mut manager = fresh_manager(StateRecoveryConfig::default(), 0);
    let mut session = empty_session();
    manager.initiate_recovery(&mut session, 1, RecoveryType::FullRestore, 0, [0u8; 32], 50).unwrap();
    manager.execute_recovery_phase(&mut session).unwrap();
    let progress = session.progress_percentage;
    manager.complete_recovery_session(&mut session, false).unwrap();
    assert_eq!(session.status, RecoverySessionStatus::Failed);
    assert_eq!(session.progress_percentage, progress);
    assert_eq!(manager.failed_recoveries, 1);
    assert!(!manager.recovery_mode_active);
}

#[test]
fn validation_counter_resets_at_the_configured_frequency() {
    let config = StateRecoveryConfig { validation_frequency: 3, ..StateRecoveryConfig::default() };
    let mut manager = fresh_manager(config, 0);
    manager.record_operation().unwrap();
    manager.record_operation().unwrap();
    assert_eq!(manager.operations_since_validation, 2);
    manager.record_operation().unwrap();
    assert_eq!(manager.operations_since_validation, 0);
}

#[test]
fn checkpoint_cadence_is_lazy() {
    let mut manager = fresh_manager(StateRecoveryConfig::default(), 1000);
    assert!(!manager.should_create_checkpoint(1000));
    assert!(!manager.should_create_checkpoint(4599));
    assert!(manager.should_create_checkpoint(4600));
    let mut checkpoint = empty_checkpoint();
    manager.create_checkpoint(&mut checkpoint, CheckpointType::Periodic, metrics(90), 4600).unwrap();
    assert!(!manager.should_create_checkpoint(4601));
}

#[test]
fn state_recovery_stats_are_idempotent_and_exact() {
    let mut manager = fresh_manager(StateRecoveryConfig::default(), 100);
    manager.successful_recoveries = 1;
    manager.failed_recoveries = 3;

    let first = manager.get_recovery_stats(400);
    let second = manager.get_recovery_stats(400);
    assert_eq!(first, second);
    assert_eq!(first.success_rate_bps, 2500);
    assert_eq!(first.time_since_last_checkpoint, 300);

    let empty = fresh_manager(StateRecoveryConfig::default(), 100).get_recovery_stats(100);
    assert_eq!(empty.success_rate_bps, 10000);
}
