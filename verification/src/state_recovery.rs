//! State recovery: periodic checkpoints over state metrics, and a phased
//! recovery session that restores or reconstructs state from a checkpoint.

use vstd::prelude::*;

use crate::errors::UniversalNftError;
use crate::text;

verus! {

/// Kinds of checkpoint, by what prompted them.
#[derive(Clone, Copy, Debug, PartialEq, Eq, Structural)]
pub enum CheckpointType {
    /// Regular periodic checkpoint.
    Periodic,
    /// Taken before a major operation.
    PreOperation,
    /// Taken after a successful operation.
    PostOperation,
    /// Emergency checkpoint.
    Emergency,
    /// Consensus checkpoint.
    Consensus,
}

/// Aggregate metrics snapshotted into a checkpoint.
#[derive(Clone, Copy, Debug, PartialEq, Eq, Structural)]
pub struct StateMetrics {
    pub total_nfts: u64,
    pub active_transfers: u32,
    pub unique_users: u32,
    pub uptime_seconds: u64,
    pub memory_usage_bytes: u64,
    /// Data integrity score, 0 to 100.
    pub integrity_score: u8,
}

#[derive(Clone, Copy, Debug, PartialEq, Eq, Structural)]
pub enum ValidationStatus {
    Valid,
    CorruptedMinor,
    CorruptedMajor,
    Inconsistent,
    Unknown,
}

/// What a recovery session is asked to restore.
#[derive(Clone, Copy, Debug, PartialEq, Eq, Structural)]
pub enum RecoveryType {
    FullRestore,
    PartialRestore,
    StateReconstruction,
    ConsistencyRepair,
    DataDeduplication,
    IndexRebuild,
}

/// The ordered phases a state-recovery session runs through.
#[derive(Clone, Copy, Debug, PartialEq, Eq, Structural)]
pub enum RecoveryPhase {
    Initialization,
    Validation,
    DataRetrieval,
    StateReconstruction,
    ConsistencyCheck,
    Finalization,
    Complete,
}

#[derive(Clone, Copy, Debug, PartialEq, Eq, Structural)]
pub enum RecoverySessionStatus {
    Active,
    Paused,
    Completed,
    Failed,
    Cancelled,
}

/// How the session sources the state it restores.
#[derive(Clone, Copy, Debug, PartialEq, Eq, Structural)]
pub enum RecoveryStrategy {
    /// Restore from a previous checkpoint.
    BackwardRecovery,
    /// Replay operations from a checkpoint.
    ForwardRecovery,
    /// Combination of backward and forward recovery.
    HybridRecovery,
    /// Use consensus from multiple sources.
    ConsensusRecovery,
    /// Rebuild from whatever data is available.
    ReconstructionRecovery,
}

/// The state-recovery manager: checkpoint cadence, validation cadence, and
/// recovery counters.
pub struct StateRecoveryManager {
    pub authority: [u8; 32],
    pub total_checkpoints: u64,
    pub total_recoveries: u64,
    pub successful_recoveries: u64,
    pub failed_recoveries: u64,
    /// Seconds between checkpoints.
    pub checkpoint_interval: i64,
    pub last_checkpoint: i64,
    pub auto_recovery_enabled: bool,
    /// Operations between state validations.
    pub validation_frequency: u32,
    pub operations_since_validation: u32,
    /// Whether a recovery session is currently running; at most one runs.
    pub recovery_mode_active: bool,
    pub bump: u8,
}

/// One state checkpoint.
pub struct StateCheckpoint {
    pub checkpoint_id: u64,
    pub created_at: i64,
    /// Digest of the metrics and timestamp the checkpoint was taken over.
    pub state_hash: [u8; 32],
    pub checkpoint_type: CheckpointType,
    pub operations_since_last: u32,
    pub state_metrics: StateMetrics,
    pub validation_status: ValidationStatus,
    pub checkpoint_size: u64,
    /// Higher means restored first.
    pub recovery_priority: u8,
    /// The recovery session using this checkpoint, if any.
    pub recovery_session_id: Option<u64>,
    pub bump: u8,
}

/// One phased state-recovery session.
pub struct StateRecoverySession {
    pub session_id: u64,
    pub recovery_type: RecoveryType,
    pub source_checkpoint_id: u64,
    pub target_state_hash: [u8; 32],
    pub current_phase: RecoveryPhase,
    pub progress_percentage: u8,
    pub started_at: i64,
    pub estimated_completion: i64,
    pub status: RecoverySessionStatus,
    pub blocks_recovered: u32,
    pub total_blocks: u32,
    pub errors_encountered: u16,
    pub strategy: RecoveryStrategy,
    pub bump: u8,
}

/// Configuration of the state-recovery manager.
#[derive(Clone, Copy, Debug, PartialEq, Eq, Structural)]
pub struct StateRecoveryConfig {
    pub checkpoint_interval: i64,
    pub auto_recovery_enabled: bool,
    pub validation_frequency: u32,
}

pub open spec fn spec_default_state_recovery_config() -> StateRecoveryConfig {
    StateRecoveryConfig {
        checkpoint_interval: 3600,
        auto_recovery_enabled: true,
        validation_frequency: 1000,
    }
}

impl Default for StateRecoveryConfig {
    /// Hourly checkpoints, validation every thousand operations.
    fn default() -> (r: Self)
        ensures
            r == spec_default_state_recovery_config(),
    {
        StateRecoveryConfig {
            checkpoint_interval: 3600,
            auto_recovery_enabled: true,
            validation_frequency: 1000,
        }
    }
}

/// The digest bytes of a metrics snapshot: the decimal renderings of the
/// load-bearing metrics and the timestamp, run together and truncated or
/// zero-padded to 32 bytes.
pub open spec fn spec_state_hash(metrics: StateMetrics, timestamp: i64) -> Seq<u8> {
    let data = text::spec_decimal_bytes(metrics.total_nfts) + text::spec_decimal_bytes(
        metrics.active_transfers as u64,
    ) + text::spec_decimal_bytes(metrics.unique_users as u64) + text::spec_decimal_bytes(
        metrics.integrity_score as u64,
    ) + text::spec_decimal_bytes(timestamp as u64);
    Seq::new(
        32,
        |i: int|
            if i < data.len() {
                data[i]
            } else {
                0u8
            },
    )
}

/// Validation verdict from the integrity score alone.
pub open spec fn spec_validation_status(metrics: StateMetrics) -> ValidationStatus {
    if metrics.integrity_score >= 95 {
        ValidationStatus::Valid
    } else if metrics.integrity_score >= 80 {
        ValidationStatus::CorruptedMinor
    } else if metrics.integrity_score >= 50 {
        ValidationStatus::CorruptedMajor
    } else {
        ValidationStatus::Inconsistent
    }
}

/// Restore priority of a checkpoint kind.
pub open spec fn spec_recovery_priority(checkpoint_type: CheckpointType) -> u8 {
    match checkpoint_type {
        CheckpointType::Emergency => 100,
        CheckpointType::Consensus => 90,
        CheckpointType::PostOperation => 70,
        CheckpointType::PreOperation => 60,
        CheckpointType::Periodic => 50,
    }
}

/// The strategy chosen for each recovery type.
pub open spec fn spec_state_recovery_strategy(recovery_type: RecoveryType) -> RecoveryStrategy {
    match recovery_type {
        RecoveryType::FullRestore => RecoveryStrategy::BackwardRecovery,
        RecoveryType::PartialRestore => RecoveryStrategy::HybridRecovery,
        RecoveryType::StateReconstruction => RecoveryStrategy::ReconstructionRecovery,
        RecoveryType::ConsistencyRepair => RecoveryStrategy::ForwardRecovery,
        RecoveryType::DataDeduplication => RecoveryStrategy::HybridRecovery,
        RecoveryType::IndexRebuild => RecoveryStrategy::ReconstructionRecovery,
    }
}

/// The phase after `phase`; `Complete` is terminal.
pub open spec fn spec_next_phase(phase: RecoveryPhase) -> RecoveryPhase {
    match phase {
        RecoveryPhase::Initialization => RecoveryPhase::Validation,
        RecoveryPhase::Validation => RecoveryPhase::DataRetrieval,
        RecoveryPhase::DataRetrieval => RecoveryPhase::StateReconstruction,
        RecoveryPhase::StateReconstruction => RecoveryPhase::ConsistencyCheck,
        RecoveryPhase::ConsistencyCheck => RecoveryPhase::Finalization,
        RecoveryPhase::Finalization => RecoveryPhase::Complete,
        RecoveryPhase::Complete => RecoveryPhase::Complete,
    }
}

/// Progress shown while a session stands in a phase.
pub open spec fn spec_phase_progress(phase: RecoveryPhase) -> u8 {
    match phase {
        RecoveryPhase::Initialization => 10,
        RecoveryPhase::Validation => 20,
        RecoveryPhase::DataRetrieval => 40,
        RecoveryPhase::StateReconstruction => 70,
        RecoveryPhase::ConsistencyCheck => 90,
        RecoveryPhase::Finalization => 95,
        RecoveryPhase::Complete => 100,
    }
}

/// The blocks a session reports recovered while in a phase.
pub open spec fn spec_phase_blocks(phase: RecoveryPhase, before: u32, total: u32) -> int {
    match phase {
        RecoveryPhase::DataRetrieval => total as int / 3,
        RecoveryPhase::StateReconstruction => total as int * 2 / 3,
        RecoveryPhase::ConsistencyCheck => total as int,
        _ => before as int,
    }
}

/// Read-only statistics of the state-recovery manager.
#[derive(Clone, Copy, Debug, PartialEq, Eq, Structural)]
pub struct StateRecoveryStats {
    pub total_checkpoints: u64,
    pub total_recoveries: u64,
    pub successful_recoveries: u64,
    pub failed_recoveries: u64,
    pub success_rate_bps: u16,
    pub checkpoint_interval: i64,
    pub time_since_last_checkpoint: i64,
    pub auto_recovery_enabled: bool,
    pub recovery_mode_active: bool,
    pub operations_since_validation: u32,
}

/// The statistics snapshot: a pure function of the manager's state and the
/// passed time, so reading it twice without an intervening change gives
/// identical results.
pub open spec fn spec_state_recovery_stats(m: StateRecoveryManager, now: i64) -> StateRecoveryStats {
    StateRecoveryStats {
        total_checkpoints: m.total_checkpoints,
        total_recoveries: m.total_recoveries,
        successful_recoveries: m.successful_recoveries,
        failed_recoveries: m.failed_recoveries,
        success_rate_bps: (if m.successful_recoveries + m.failed_recoveries > 0 {
            m.successful_recoveries * 10000 / (m.successful_recoveries + m.failed_recoveries)
        } else {
            10000int
        }) as u16,
        checkpoint_interval: m.checkpoint_interval,
        time_since_last_checkpoint: (now - m.last_checkpoint) as i64,
        auto_recovery_enabled: m.auto_recovery_enabled,
        recovery_mode_active: m.recovery_mode_active,
        operations_since_validation: m.operations_since_validation,
    }
}

impl StateRecoveryManager {
    /// Initialize the manager: clean counters, cadences taken from the
    /// configuration, no recovery running.
    pub fn initialize(
        &mut self,
        authority: [u8; 32],
        config: StateRecoveryConfig,
        bump: u8,
        now: i64,
    ) -> (r: Result<(), UniversalNftError>)
        ensures
            r is Ok,
            final(self).authority == authority,
            final(self).total_checkpoints == 0,
            final(self).total_recoveries == 0,
            final(self).successful_recoveries == 0,
            final(self).failed_recoveries == 0,
            final(self).checkpoint_interval == config.checkpoint_interval,
            final(self).last_checkpoint == now,
            final(self).auto_recovery_enabled == config.auto_recovery_enabled,
            final(self).validation_frequency == config.validation_frequency,
            final(self).operations_since_validation == 0,
            !final(self).recovery_mode_active,
            final(self).bump == bump,
    {
        self.authority = authority;
        self.total_checkpoints = 0;
        self.total_recoveries = 0;
        self.successful_recoveries = 0;
        self.failed_recoveries = 0;
        self.checkpoint_interval = config.checkpoint_interval;
        self.last_checkpoint = now;
        self.auto_recovery_enabled = config.auto_recovery_enabled;
        self.validation_frequency = config.validation_frequency;
        self.operations_since_validation = 0;
        self.recovery_mode_active = false;
        self.bump = bump;
        Ok(())
    }

    /// Take a checkpoint of the current state metrics: digest them, judge
    /// their integrity, and restart the checkpoint clock.
    pub fn create_checkpoint(
        &mut self,
        checkpoint: &mut StateCheckpoint,
        checkpoint_type: CheckpointType,
        current_state_metrics: StateMetrics,
        now: i64,
    ) -> (r: Result<(), UniversalNftError>)
        requires
            old(self).total_checkpoints < u64::MAX,
            now >= 0,
        ensures
            r is Ok,
            final(checkpoint).checkpoint_id == old(self).total_checkpoints,
            final(checkpoint).created_at == now,
            final(checkpoint).state_hash@ == spec_state_hash(current_state_metrics, now),
            final(checkpoint).checkpoint_type == checkpoint_type,
            final(checkpoint).operations_since_last == old(self).operations_since_validation,
            final(checkpoint).state_metrics == current_state_metrics,
            final(checkpoint).validation_status == spec_validation_status(current_state_metrics),
            final(checkpoint).checkpoint_size == 1024 * 1024,
            final(checkpoint).recovery_priority == spec_recovery_priority(checkpoint_type),
            final(checkpoint).recovery_session_id is None,
            final(checkpoint).bump == old(checkpoint).bump,
            *final(self) == (StateRecoveryManager {
                total_checkpoints: (old(self).total_checkpoints + 1) as u64,
                last_checkpoint: now,
                operations_since_validation: 0,
                ..*old(self)
            }),
    {
        let state_hash = self.calculate_state_hash(&current_state_metrics, now);
        let validation_status = self.validate_current_state(&current_state_metrics);

        checkpoint.checkpoint_id = self.total_checkpoints;
        checkpoint.created_at = now;
        checkpoint.state_hash = state_hash;
        checkpoint.checkpoint_type = checkpoint_type;
        checkpoint.operations_since_last = self.operations_since_validation;
        checkpoint.state_metrics = current_state_metrics;
        checkpoint.validation_status = validation_status;
        checkpoint.checkpoint_size = 1024 * 1024;
        checkpoint.recovery_priority = self.calculate_recovery_priority(checkpoint_type);
        checkpoint.recovery_session_id = None;

        self.total_checkpoints = self.total_checkpoints + 1;
        self.last_checkpoint = now;
        self.operations_since_validation = 0;
        Ok(())
    }

    /// Begin a state-recovery session from a checkpoint. Only one session
    /// runs at a time.
    pub fn initiate_recovery(
        &mut self,
        recovery_session: &mut StateRecoverySession,
        session_id: u64,
        recovery_type: RecoveryType,
        source_checkpoint_id: u64,
        target_state_hash: [u8; 32],
        now: i64,
    ) -> (r: Result<(), UniversalNftError>)
        requires
            old(self).total_recoveries < u64::MAX,
            0 <= now <= i64::MAX - 3600,
        ensures
            old(self).recovery_mode_active ==> {
                &&& r == Err::<(), UniversalNftError>(UniversalNftError::InvalidTransferStatus)
                &&& *final(self) == *old(self)
                &&& *final(recovery_session) == *old(recovery_session)
            },
            !old(self).recovery_mode_active ==> {
                &&& r is Ok
                &&& final(recovery_session).session_id == session_id
                &&& final(recovery_session).recovery_type == recovery_type
                &&& final(recovery_session).source_checkpoint_id == source_checkpoint_id
                &&& final(recovery_session).target_state_hash == target_state_hash
                &&& final(recovery_session).current_phase is Initialization
                &&& final(recovery_session).progress_percentage == 0
                &&& final(recovery_session).started_at == now
                &&& final(recovery_session).estimated_completion == now + 3600
                &&& final(recovery_session).status is Active
                &&& final(recovery_session).blocks_recovered == 0
                &&& final(recovery_session).total_blocks == 1000
                &&& final(recovery_session).errors_encountered == 0
                &&& final(recovery_session).strategy == spec_state_recovery_strategy(recovery_type)
                &&& final(recovery_session).bump == old(recovery_session).bump
                &&& *final(self) == (StateRecoveryManager {
                    recovery_mode_active: true,
                    total_recoveries: (old(self).total_recoveries + 1) as u64,
                    ..*old(self)
                })
            },
    {
        if self.recovery_mode_active {
            return Err(UniversalNftError::InvalidTransferStatus);
        }

        let strategy = self.determine_recovery_strategy(recovery_type);

        recovery_session.session_id = session_id;
        recovery_session.recovery_type = recovery_type;
        recovery_session.source_checkpoint_id = source_checkpoint_id;
        recovery_session.target_state_hash = target_state_hash;
        recovery_session.current_phase = RecoveryPhase::Initialization;
        recovery_session.progress_percentage = 0;
        recovery_session.started_at = now;
        recovery_session.estimated_completion = now + 3600;
        recovery_session.status = RecoverySessionStatus::Active;
        recovery_session.blocks_recovered = 0;
        recovery_session.total_blocks = 1000;
        recovery_session.errors_encountered = 0;
        recovery_session.strategy = strategy;

        self.recovery_mode_active = true;
        self.total_recoveries = self.total_recoveries + 1;
        Ok(())
    }

    /// Run the current phase of an active session and advance to the next
    /// one; returns whether the session has reached `Complete`.
    pub fn execute_recovery_phase(&mut self, recovery_session: &mut StateRecoverySession) -> (r:
        Result<bool, UniversalNftError>)
        ensures
            !(old(recovery_session).status is Active && old(self).recovery_mode_active) ==> {
                &&& r is Err
                &&& *final(self) == *old(self)
                &&& *final(recovery_session) == *old(recovery_session)
            },
            (old(recovery_session).status is Active && old(self).recovery_mode_active) ==> {
                &&& *final(self) == *old(self)
                &&& (old(recovery_session).current_phase is Complete ==> {
                    &&& r == Ok::<bool, UniversalNftError>(true)
                    &&& *final(recovery_session) == *old(recovery_session)
                })
                &&& (!(old(recovery_session).current_phase is Complete) ==> {
                    let next = spec_next_phase(old(recovery_session).current_phase);
                    &&& r == Ok::<bool, UniversalNftError>(next is Complete)
                    &&& final(recovery_session).current_phase == next
                    &&& final(recovery_session).progress_percentage == spec_phase_progress(next)
                    &&& final(recovery_session).blocks_recovered == spec_phase_blocks(
                        old(recovery_session).current_phase,
                        old(recovery_session).blocks_recovered,
                        old(recovery_session).total_blocks,
                    )
                    &&& final(recovery_session).status == old(recovery_session).status
                    &&& final(recovery_session).session_id == old(recovery_session).session_id
                    &&& final(recovery_session).total_blocks == old(recovery_session).total_blocks
                    &&& final(recovery_session).recovery_type == old(recovery_session).recovery_type
                    &&& final(recovery_session).source_checkpoint_id == old(
                        recovery_session,
                    ).source_checkpoint_id
                    &&& final(recovery_session).target_state_hash == old(
                        recovery_session,
                    ).target_state_hash
                    &&& final(recovery_session).started_at == old(recovery_session).started_at
                    &&& final(recovery_session).estimated_completion == old(
                        recovery_session,
                    ).estimated_completion
                    &&& final(recovery_session).errors_encountered == old(
                        recovery_session,
                    ).errors_encountered
                    &&& final(recovery_session).strategy == old(recovery_session).strategy
                    &&& final(recovery_session).bump == old(recovery_session).bump
                })
            },
    {
        if !matches!(recovery_session.status, RecoverySessionStatus::Active) {
            return Err(UniversalNftError::InvalidTransferStatus);
        }
        if !self.recovery_mode_active {
            return Err(UniversalNftError::InvalidTransferStatus);
        }

        match recovery_session.current_phase {
            RecoveryPhase::Initialization => {},
            RecoveryPhase::Validation => {},
            RecoveryPhase::DataRetrieval => {
                recovery_session.blocks_recovered = recovery_session.total_blocks / 3;
            },
            RecoveryPhase::StateReconstruction => {
                let doubled: u64 = (recovery_session.total_blocks as u64) * 2;
                recovery_session.blocks_recovered = (doubled / 3) as u32;
            },
            RecoveryPhase::ConsistencyCheck => {
                recovery_session.blocks_recovered = recovery_session.total_blocks;
            },
            RecoveryPhase::Finalization => {},
            RecoveryPhase::Complete => {
                return Ok(true);
            },
        }

        recovery_session.current_phase = self.advance_phase(recovery_session.current_phase);
        recovery_session.progress_percentage = self.phase_progress(
            recovery_session.current_phase,
        );
        Ok(matches!(recovery_session.current_phase, RecoveryPhase::Complete))
    }

    /// Close a recovery session and leave recovery mode.
    pub fn complete_recovery_session(
        &mut self,
        recovery_session: &mut StateRecoverySession,
        success: bool,
    ) -> (r: Result<(), UniversalNftError>)
        requires
            old(self).successful_recoveries < u64::MAX,
            old(self).failed_recoveries < u64::MAX,
        ensures
            r is Ok,
            final(recovery_session).status == (if success {
                RecoverySessionStatus::Completed
            } else {
                RecoverySessionStatus::Failed
            }),
            final(recovery_session).progress_percentage == (if success {
                100u8
            } else {
                old(recovery_session).progress_percentage
            }),
            *final(self) == (StateRecoveryManager {
                successful_recoveries: (if success {
                    old(self).successful_recoveries + 1
                } else {
                    old(self).successful_recoveries as int
                }) as u64,
                failed_recoveries: (if success {
                    old(self).failed_recoveries as int
                } else {
                    old(self).failed_recoveries + 1
                }) as u64,
                recovery_mode_active: false,
                ..*old(self)
            }),
    {
        if success {
            recovery_session.status = RecoverySessionStatus::Completed;
            recovery_session.progress_percentage = 100;
            self.successful_recoveries = self.successful_recoveries + 1;
        } else {
            recovery_session.status = RecoverySessionStatus::Failed;
            self.failed_recoveries = self.failed_recoveries + 1;
        }
        self.recovery_mode_active = false;
        Ok(())
    }

    /// Count one operation towards the validation cadence; at the
    /// configured frequency the counter resets with a validation pass.
    pub fn record_operation(&mut self) -> (r: Result<(), UniversalNftError>)
        requires
            old(self).operations_since_validation < u32::MAX,
        ensures
            r is Ok,
            *final(self) == (StateRecoveryManager {
                operations_since_validation: (if old(self).operations_since_validation + 1 >= old(
                    self,
                ).validation_frequency {
                    0int
                } else {
                    old(self).operations_since_validation + 1
                }) as u32,
                ..*old(self)
            }),
    {
        self.operations_since_validation = self.operations_since_validation + 1;
        if self.operations_since_validation >= self.validation_frequency {
            self.operations_since_validation = 0;
        }
        Ok(())
    }

    /// Whether the checkpoint interval has elapsed since the last one.
    pub fn should_create_checkpoint(&self, now: i64) -> (r: bool)
        requires
            self.last_checkpoint + self.checkpoint_interval <= i64::MAX,
            i64::MIN <= self.last_checkpoint + self.checkpoint_interval,
        ensures
            r == (now >= self.last_checkpoint + self.checkpoint_interval),
    {
        now >= self.last_checkpoint + self.checkpoint_interval
    }

    /// Digest a metrics snapshot into the 32-byte checkpoint hash.
    pub fn calculate_state_hash(&self, metrics: &StateMetrics, timestamp: i64) -> (r: [u8; 32])
        requires
            timestamp >= 0,
        ensures
            r@ == spec_state_hash(*metrics, timestamp),
    {
        let mut data: Vec<u8> = Vec::new();
        text::push_decimal_bytes(&mut data, metrics.total_nfts);
        text::push_decimal_bytes(&mut data, metrics.active_transfers as u64);
        text::push_decimal_bytes(&mut data, metrics.unique_users as u64);
        text::push_decimal_bytes(&mut data, metrics.integrity_score as u64);
        text::push_decimal_bytes(&mut data, timestamp as u64);
        let mut hash = [0u8; 32];
        let mut i: usize = 0;
        while i < 32
            invariant
                i <= 32,
                data@ == text::spec_decimal_bytes(metrics.total_nfts) + text::spec_decimal_bytes(
                    metrics.active_transfers as u64,
                ) + text::spec_decimal_bytes(metrics.unique_users as u64)
                    + text::spec_decimal_bytes(metrics.integrity_score as u64)
                    + text::spec_decimal_bytes(timestamp as u64),
                forall|j: int|
                    0 <= j < i ==> hash@[j] == (if j < data@.len() {
                        data@[j]
                    } else {
                        0u8
                    }),
                forall|j: int| i <= j < 32 ==> hash@[j] == 0u8,
                hash@.len() == 32,
            decreases 32 - i,
        {
            if i < data.len() {
                hash[i] = data[i];
            }
            i += 1;
        }
        proof {
            assert(hash@ =~= spec_state_hash(*metrics, timestamp));
        }
        hash
    }

    /// Judge the current state from its integrity score.
    pub fn validate_current_state(&self, metrics: &StateMetrics) -> (r: ValidationStatus)
        ensures
            r == spec_validation_status(*metrics),
    {
        if metrics.integrity_score >= 95 {
            ValidationStatus::Valid
        } else if metrics.integrity_score >= 80 {
            ValidationStatus::CorruptedMinor
        } else if metrics.integrity_score >= 50 {
            ValidationStatus::CorruptedMajor
        } else {
            ValidationStatus::Inconsistent
        }
    }

    /// Restore priority of a checkpoint kind.
    pub fn calculate_recovery_priority(&self, checkpoint_type: CheckpointType) -> (r: u8)
        ensures
            r == spec_recovery_priority(checkpoint_type),
    {
        match checkpoint_type {
            CheckpointType::Emergency => 100,
            CheckpointType::Consensus => 90,
            CheckpointType::PostOperation => 70,
            CheckpointType::PreOperation => 60,
            CheckpointType::Periodic => 50,
        }
    }

    /// The strategy for a recovery type.
    pub fn determine_recovery_strategy(&self, recovery_type: RecoveryType) -> (r: RecoveryStrategy)
        ensures
            r == spec_state_recovery_strategy(recovery_type),
    {
        match recovery_type {
            RecoveryType::FullRestore => RecoveryStrategy::BackwardRecovery,
            RecoveryType::PartialRestore => RecoveryStrategy::HybridRecovery,
            RecoveryType::StateReconstruction => RecoveryStrategy::ReconstructionRecovery,
            RecoveryType::ConsistencyRepair => RecoveryStrategy::ForwardRecovery,
            RecoveryType::DataDeduplication => RecoveryStrategy::HybridRecovery,
            RecoveryType::IndexRebuild => RecoveryStrategy::ReconstructionRecovery,
        }
    }

    fn advance_phase(&self, phase: RecoveryPhase) -> (r: RecoveryPhase)
        ensures
            r == spec_next_phase(phase),
    {
        match phase {
            RecoveryPhase::Initialization => RecoveryPhase::Validation,
            RecoveryPhase::Validation => RecoveryPhase::DataRetrieval,
            RecoveryPhase::DataRetrieval => RecoveryPhase::StateReconstruction,
            RecoveryPhase::StateReconstruction => RecoveryPhase::ConsistencyCheck,
            RecoveryPhase::ConsistencyCheck => RecoveryPhase::Finalization,
            RecoveryPhase::Finalization => RecoveryPhase::Complete,
            RecoveryPhase::Complete => RecoveryPhase::Complete,
        }
    }

    fn phase_progress(&self, phase: RecoveryPhase) -> (r: u8)
        ensures
            r == spec_phase_progress(phase),
    {
        match phase {
            RecoveryPhase::Initialization => 10,
            RecoveryPhase::Validation => 20,
            RecoveryPhase::DataRetrieval => 40,
            RecoveryPhase::StateReconstruction => 70,
            RecoveryPhase::ConsistencyCheck => 90,
            RecoveryPhase::Finalization => 95,
            RecoveryPhase::Complete => 100,
        }
    }

    /// Read the manager's statistics.
    pub fn get_recovery_stats(&self, now: i64) -> (r: StateRecoveryStats)
        requires
            0 <= self.last_checkpoint <= now,
        ensures
            r == spec_state_recovery_stats(*self, now),
    {
        let completed: u64 = self.successful_recoveries.saturating_add(self.failed_recoveries);
        let success_rate: u16 = if completed > 0 {
            let ghost succ = self.successful_recoveries;
            let ghost failed = self.failed_recoveries;
            proof {
                assert(succ * 10000 / (succ + failed) <= 10000) by (nonlinear_arith)
                    requires
                        succ >= 0,
                        failed >= 0,
                        succ + failed > 0,
                ;
            }
            ((self.successful_recoveries as u128) * 10000 / ((self.successful_recoveries as u128)
                + (self.failed_recoveries as u128))) as u16
        } else {
            10000
        };
        StateRecoveryStats {
            total_checkpoints: self.total_checkpoints,
            total_recoveries: self.total_recoveries,
            successful_recoveries: self.successful_recoveries,
            failed_recoveries: self.failed_recoveries,
            success_rate_bps: success_rate,
            checkpoint_interval: self.checkpoint_interval,
            time_since_last_checkpoint: now - self.last_checkpoint,
            auto_recovery_enabled: self.auto_recovery_enabled,
            recovery_mode_active: self.recovery_mode_active,
            operations_since_validation: self.operations_since_validation,
        }
    }
}

} // verus!
