//! Recovery orchestration for failures that retries cannot fix: a strategy
//! is chosen per error class, a bounded session runs strategy-specific
//! attempts, and on completion the user's compensation is derived from the
//! fees the failed operation already spent.

use vstd::prelude::*;

use crate::errors::UniversalNftError;
use crate::text;

verus! {

/// Error classes routed to recovery.
#[derive(Clone, Copy, Debug, PartialEq, Eq, Structural)]
pub enum ErrorType {
    TransactionFailed,
    NetworkTimeout,
    InsufficientFunds,
    AccountNotFound,
    InvalidSignature,
    ComputeExceeded,
    CrossChainTimeout,
    GatewayUnavailable,
    StateCorruption,
    ConcurrencyConflict,
    SecurityViolation,
    SystemOverload,
}

/// How a recovery session tries to undo or repair a failure.
#[derive(Clone, Copy, Debug, PartialEq, Eq, Structural)]
pub enum RecoveryStrategy {
    /// Simple retry with exponential backoff.
    ExponentialBackoff,
    /// Retry with adjusted parameters.
    ParameterAdjustment,
    /// Switch to an alternative execution path.
    AlternativeExecution,
    /// Roll back to a checkpoint and retry.
    RollbackRetry,
    /// Issue a compensating transaction.
    CompensatingTransaction,
    /// Reconstruct corrupted state.
    StateReconstruction,
    /// Hand over to a human; never auto-executes.
    ManualIntervention,
    /// Degrade gracefully to reduced functionality.
    GracefulDegradation,
}

#[derive(Clone, Copy, Debug, PartialEq, Eq, Structural)]
pub enum RecoveryStatus {
    InProgress,
    Successful,
    Failed,
    RequiresManualIntervention,
    Cancelled,
    TimedOut,
}

#[derive(Clone, Copy, Debug, PartialEq, Eq, Structural)]
pub enum ActionType {
    RetryTransaction,
    AdjustComputeLimit,
    AdjustPriorityFee,
    SwitchRpcEndpoint,
    RefreshBlockhash,
    RecreateAccounts,
    ValidateState,
    CompensateUser,
    NotifyUser,
    EscalateToManual,
}

#[derive(Clone, Copy, Debug, PartialEq, Eq, Structural)]
pub enum ActionResult {
    Success,
    PartialSuccess,
    Failed,
    Skipped,
}

#[derive(Clone, Copy, Debug, PartialEq, Eq, Structural)]
pub enum RecoveryResult {
    FullRecovery,
    PartialRecovery,
    CompensatedFailure,
    UnrecoverableFailure,
}

#[derive(Clone, Copy, Debug, PartialEq, Eq, Structural)]
pub enum CompensationType {
    FeeRefund,
    TokenCompensation,
    ServiceCredit,
    PriorityAccess,
}

/// What failed, who initiated it, and what it had already cost.
pub struct OperationContext {
    /// Operation kind that failed.
    pub operation_type: String,
    /// User who initiated the operation.
    pub user: [u8; 32],
    /// NFT mint involved, if any.
    pub nft_mint: Option<[u8; 32]>,
    /// Target chain for cross-chain operations.
    pub target_chain: Option<u64>,
    /// Signature of the failed transaction.
    pub failed_signature: Option<String>,
    /// Compute units consumed before the failure.
    pub compute_units_used: u32,
    /// Fees paid before the failure; compensation derives from this.
    pub fees_paid: u64,
}

/// One recorded recovery step.
pub struct RecoveryAction {
    pub action_type: ActionType,
    pub timestamp: i64,
    pub parameters: String,
    pub result: ActionResult,
    pub compute_units: u32,
}

/// Compensation granted to the user after a recovery session.
pub struct Compensation {
    pub compensation_type: CompensationType,
    /// Always derived from the fees the failed operation spent.
    pub amount: u64,
    /// Token the compensation is paid in; `None` for the native token.
    pub token_mint: Option<[u8; 32]>,
    pub reason: String,
}

/// Terminal report of a recovery session.
pub struct RecoveryOutcome {
    pub result: RecoveryResult,
    pub new_signature: Option<String>,
    pub compensation: Option<Compensation>,
    /// Advisory text for operational feedback, not control flow.
    pub lessons_learned: String,
}

#[derive(Clone, Copy, Debug, PartialEq, Eq, Structural)]
pub struct ResourceUsage {
    pub compute_units: u64,
    pub fees_spent: u64,
    pub duration_seconds: u64,
    pub network_requests: u32,
}

/// One recovery session: the error, the chosen strategy, the bounded
/// attempt counter, and everything recorded along the way.
pub struct RecoverySession {
    pub session_id: u64,
    /// Error that triggered recovery.
    pub original_error: ErrorType,
    /// Strategy chosen for that error.
    pub recovery_strategy: RecoveryStrategy,
    /// The failed operation.
    pub operation_context: OperationContext,
    /// Attempts made so far.
    pub attempts_made: u8,
    /// Cap on attempts for this strategy.
    pub max_attempts: u8,
    pub status: RecoveryStatus,
    pub started_at: i64,
    pub completed_at: Option<i64>,
    /// Recovery actions taken, in order.
    pub actions_taken: Vec<RecoveryAction>,
    /// Terminal report, set on completion.
    pub outcome: Option<RecoveryOutcome>,
    pub resources_consumed: ResourceUsage,
    pub bump: u8,
}

/// Configuration of the recovery manager.
#[derive(Clone, Copy, Debug, PartialEq, Eq, Structural)]
pub struct RecoveryConfig {
    pub max_concurrent_sessions: u16,
    pub auto_recovery_enabled: bool,
    pub aggressive_mode: bool,
}

pub open spec fn spec_default_recovery_config() -> RecoveryConfig {
    RecoveryConfig { max_concurrent_sessions: 10, auto_recovery_enabled: true, aggressive_mode: false }
}

impl Default for RecoveryConfig {
    fn default() -> (r: Self)
        ensures
            r == spec_default_recovery_config(),
    {
        RecoveryConfig {
            max_concurrent_sessions: 10,
            auto_recovery_enabled: true,
            aggressive_mode: false,
        }
    }
}

/// The recovery manager: counters, the concurrency cap, and the toggles
/// that govern automatic and aggressive recovery.
pub struct ErrorRecoveryManager {
    pub authority: [u8; 32],
    pub total_recovery_attempts: u64,
    pub successful_recoveries: u64,
    pub failed_recoveries: u64,
    pub active_recovery_sessions: u16,
    pub max_concurrent_sessions: u16,
    /// Recoveries that succeeded, per completed session, in basis points.
    pub recovery_success_rate_bps: u16,
    pub auto_recovery_enabled: bool,
    /// Doubles each strategy's attempt budget, capped at ten.
    pub aggressive_mode: bool,
    pub last_recovery_attempt: i64,
    pub stats_reset_at: i64,
    pub bump: u8,
}

/// The strategy chosen for an error class; heavy transaction failures get
/// parameter adjustment, the rest a fixed mapping.
pub open spec fn spec_recovery_strategy(
    error_type: ErrorType,
    compute_units_used: u32,
) -> RecoveryStrategy {
    match error_type {
        ErrorType::TransactionFailed => if compute_units_used > 150_000 {
            RecoveryStrategy::ParameterAdjustment
        } else {
            RecoveryStrategy::ExponentialBackoff
        },
        ErrorType::NetworkTimeout => RecoveryStrategy::ExponentialBackoff,
        ErrorType::InsufficientFunds => RecoveryStrategy::CompensatingTransaction,
        ErrorType::ComputeExceeded => RecoveryStrategy::ParameterAdjustment,
        ErrorType::CrossChainTimeout => RecoveryStrategy::AlternativeExecution,
        ErrorType::GatewayUnavailable => RecoveryStrategy::GracefulDegradation,
        ErrorType::StateCorruption => RecoveryStrategy::StateReconstruction,
        ErrorType::ConcurrencyConflict => RecoveryStrategy::RollbackRetry,
        ErrorType::SecurityViolation => RecoveryStrategy::ManualIntervention,
        ErrorType::SystemOverload => RecoveryStrategy::GracefulDegradation,
        _ => RecoveryStrategy::ExponentialBackoff,
    }
}

/// The base attempt budget of an error class.
pub open spec fn spec_base_attempts(error_type: ErrorType) -> u8 {
    match error_type {
        ErrorType::NetworkTimeout => 5,
        ErrorType::TransactionFailed => 3,
        ErrorType::ComputeExceeded => 2,
        ErrorType::CrossChainTimeout => 4,
        ErrorType::SecurityViolation => 1,
        _ => 3,
    }
}

/// The attempt budget, doubled and capped at ten in aggressive mode.
pub open spec fn spec_max_attempts(aggressive_mode: bool, error_type: ErrorType) -> u8 {
    if aggressive_mode {
        if spec_base_attempts(error_type) * 2 > 10 {
            10
        } else {
            (spec_base_attempts(error_type) * 2) as u8
        }
    } else {
        spec_base_attempts(error_type)
    }
}

/// Whether a recovery attempt succeeds: a deterministic stand-in, seeded by
/// the session id, for the outcome of the strategy's real action. Manual
/// intervention never auto-executes, so it never succeeds here.
pub open spec fn spec_attempt_success(
    strategy: RecoveryStrategy,
    attempts_made: u8,
    session_id: u64,
) -> bool {
    match strategy {
        RecoveryStrategy::ExponentialBackoff => attempts_made >= 2 && session_id % 10 < 7,
        RecoveryStrategy::ParameterAdjustment => attempts_made >= 1 && session_id % 10 < 6,
        RecoveryStrategy::AlternativeExecution => session_id % 10 < 8,
        RecoveryStrategy::RollbackRetry => session_id % 10 < 7,
        RecoveryStrategy::CompensatingTransaction => session_id % 10 < 9,
        RecoveryStrategy::StateReconstruction => attempts_made >= 2 && session_id % 10 < 5,
        RecoveryStrategy::GracefulDegradation => session_id % 10 < 9,
        RecoveryStrategy::ManualIntervention => false,
    }
}

/// The compensation type owed for a terminal result; `None` when the
/// recovery was full.
pub open spec fn spec_compensation_type(result: RecoveryResult) -> Option<CompensationType> {
    match result {
        RecoveryResult::FullRecovery => None,
        RecoveryResult::PartialRecovery => Some(CompensationType::ServiceCredit),
        RecoveryResult::CompensatedFailure => Some(CompensationType::FeeRefund),
        RecoveryResult::UnrecoverableFailure => Some(CompensationType::TokenCompensation),
    }
}

/// The compensation amount owed for a terminal result: half the fees for a
/// partial recovery, the fees for a compensated failure, twice the fees for
/// an unrecoverable one.
pub open spec fn spec_compensation_amount(result: RecoveryResult, fees_paid: u64) -> int {
    match result {
        RecoveryResult::FullRecovery => 0,
        RecoveryResult::PartialRecovery => fees_paid as int / 2,
        RecoveryResult::CompensatedFailure => fees_paid as int,
        RecoveryResult::UnrecoverableFailure => fees_paid * 2,
    }
}

/// The advisory lesson recorded for an error class.
pub open spec fn spec_lessons_learned(error_type: ErrorType) -> Seq<char> {
    match error_type {
        ErrorType::ComputeExceeded => "Consider implementing dynamic compute limit adjustment"@,
        ErrorType::NetworkTimeout => "Evaluate network reliability and implement redundant endpoints"@,
        ErrorType::CrossChainTimeout => "Optimize cross-chain message routing and timeouts"@,
        ErrorType::StateCorruption => "Enhance state validation and backup frequency"@,
        _ => "Continue monitoring for pattern recognition"@,
    }
}

/// The text recorded with each attempt's action.
pub open spec fn spec_attempt_parameters(attempts_made: u8, max_attempts: u8) -> Seq<char> {
    "attempt "@ + text::spec_decimal_digits(attempts_made as u64) + " of "@
        + text::spec_decimal_digits(max_attempts as u64)
}

/// Read-only statistics of the recovery manager.
#[derive(Clone, Copy, Debug, PartialEq, Eq, Structural)]
pub struct RecoveryStats {
    pub total_recovery_attempts: u64,
    pub successful_recoveries: u64,
    pub failed_recoveries: u64,
    pub active_sessions: u16,
    pub success_rate_bps: u16,
    pub auto_recovery_enabled: bool,
    pub aggressive_mode: bool,
    /// Whole recovery attempts per completed session.
    pub avg_attempts_per_session: u64,
}

/// The statistics snapshot: a pure function of the manager's state, so
/// reading it twice without an intervening change gives identical results.
pub open spec fn spec_recovery_stats(m: ErrorRecoveryManager) -> RecoveryStats {
    RecoveryStats {
        total_recovery_attempts: m.total_recovery_attempts,
        successful_recoveries: m.successful_recoveries,
        failed_recoveries: m.failed_recoveries,
        active_sessions: m.active_recovery_sessions,
        success_rate_bps: m.recovery_success_rate_bps,
        auto_recovery_enabled: m.auto_recovery_enabled,
        aggressive_mode: m.aggressive_mode,
        avg_attempts_per_session: (if m.successful_recoveries + m.failed_recoveries > 0 {
            m.total_recovery_attempts as int / (m.successful_recoveries
                + m.failed_recoveries)
        } else {
            0int
        }) as u64,
    }
}

/// The success rate in basis points over completed sessions.
pub open spec fn spec_success_rate_bps(successful: u64, failed: u64) -> int {
    successful * 10000 / (successful + failed)
}

fn attempt_parameters(attempts_made: u8, max_attempts: u8) -> (r: String)
    ensures
        r@ == spec_attempt_parameters(attempts_made, max_attempts),
{
    let mut s = "attempt ".to_owned();
    text::push_decimal(&mut s, attempts_made as u64);
    text::string_push_str(&mut s, " of ");
    text::push_decimal(&mut s, max_attempts as u64);
    s
}

fn lessons_learned_text(error_type: ErrorType) -> (r: String)
    ensures
        r@ == spec_lessons_learned(error_type),
{
    match error_type {
        ErrorType::ComputeExceeded => "Consider implementing dynamic compute limit adjustment".to_owned(),
        ErrorType::NetworkTimeout => "Evaluate network reliability and implement redundant endpoints".to_owned(),
        ErrorType::CrossChainTimeout => "Optimize cross-chain message routing and timeouts".to_owned(),
        ErrorType::StateCorruption => "Enhance state validation and backup frequency".to_owned(),
        _ => "Continue monitoring for pattern recognition".to_owned(),
    }
}

impl ErrorRecoveryManager {
    /// Initialize the manager: clean counters, a 100% success rate, and the
    /// toggles taken from the configuration.
    pub fn initialize(&mut self, authority: [u8; 32], config: RecoveryConfig, bump: u8, now: i64) -> (r:
        Result<(), UniversalNftError>)
        ensures
            r is Ok,
            final(self).authority == authority,
            final(self).total_recovery_attempts == 0,
            final(self).successful_recoveries == 0,
            final(self).failed_recoveries == 0,
            final(self).active_recovery_sessions == 0,
            final(self).max_concurrent_sessions == config.max_concurrent_sessions,
            final(self).recovery_success_rate_bps == 10000,
            final(self).auto_recovery_enabled == config.auto_recovery_enabled,
            final(self).aggressive_mode == config.aggressive_mode,
            final(self).last_recovery_attempt == 0,
            final(self).stats_reset_at == now,
            final(self).bump == bump,
    {
        self.authority = authority;
        self.total_recovery_attempts = 0;
        self.successful_recoveries = 0;
        self.failed_recoveries = 0;
        self.active_recovery_sessions = 0;
        self.max_concurrent_sessions = config.max_concurrent_sessions;
        self.recovery_success_rate_bps = 10000;
        self.auto_recovery_enabled = config.auto_recovery_enabled;
        self.aggressive_mode = config.aggressive_mode;
        self.last_recovery_attempt = 0;
        self.stats_reset_at = now;
        self.bump = bump;
        Ok(())
    }

    /// Open a recovery session for a failed operation: choose the strategy
    /// and attempt budget for the error class, and claim a concurrency
    /// slot. Fails when auto-recovery is off or the cap is reached.
    pub fn initiate_recovery(
        &mut self,
        session: &mut RecoverySession,
        session_id: u64,
        error_type: ErrorType,
        operation_context: OperationContext,
        now: i64,
    ) -> (r: Result<(), UniversalNftError>)
        requires
            old(self).total_recovery_attempts < u64::MAX,
        ensures
            !(old(self).auto_recovery_enabled && old(self).active_recovery_sessions < old(
                self,
            ).max_concurrent_sessions) ==> {
                &&& r == Err::<(), UniversalNftError>(UniversalNftError::InvalidTransferStatus)
                &&& *final(self) == *old(self)
                &&& *final(session) == *old(session)
            },
            (old(self).auto_recovery_enabled && old(self).active_recovery_sessions < old(
                self,
            ).max_concurrent_sessions) ==> {
                &&& r is Ok
                &&& final(session).session_id == session_id
                &&& final(session).original_error == error_type
                &&& final(session).recovery_strategy == spec_recovery_strategy(
                    error_type,
                    operation_context.compute_units_used,
                )
                &&& final(session).operation_context == operation_context
                &&& final(session).attempts_made == 0
                &&& final(session).max_attempts == spec_max_attempts(
                    old(self).aggressive_mode,
                    error_type,
                )
                &&& final(session).status is InProgress
                &&& final(session).started_at == now
                &&& final(session).completed_at is None
                &&& final(session).actions_taken@.len() == 0
                &&& final(session).outcome is None
                &&& final(session).resources_consumed == (ResourceUsage {
                    compute_units: 0,
                    fees_spent: 0,
                    duration_seconds: 0,
                    network_requests: 0,
                })
                &&& final(session).bump == old(session).bump
                &&& *final(self) == (ErrorRecoveryManager {
                    active_recovery_sessions: (old(self).active_recovery_sessions + 1) as u16,
                    total_recovery_attempts: (old(self).total_recovery_attempts + 1) as u64,
                    last_recovery_attempt: now,
                    ..*old(self)
                })
            },
    {
        if !self.auto_recovery_enabled {
            return Err(UniversalNftError::InvalidTransferStatus);
        }
        if self.active_recovery_sessions >= self.max_concurrent_sessions {
            return Err(UniversalNftError::InvalidTransferStatus);
        }

        let strategy = self.determine_recovery_strategy(
            error_type,
            operation_context.compute_units_used,
        );
        let max_attempts = self.calculate_max_attempts(error_type, strategy);

        session.session_id = session_id;
        session.original_error = error_type;
        session.recovery_strategy = strategy;
        session.operation_context = operation_context;
        session.attempts_made = 0;
        session.max_attempts = max_attempts;
        session.status = RecoveryStatus::InProgress;
        session.started_at = now;
        session.completed_at = None;
        session.actions_taken = Vec::new();
        session.outcome = None;
        session.resources_consumed = ResourceUsage {
            compute_units: 0,
            fees_spent: 0,
            duration_seconds: 0,
            network_requests: 0,
        };

        self.active_recovery_sessions = self.active_recovery_sessions + 1;
        self.total_recovery_attempts = self.total_recovery_attempts + 1;
        self.last_recovery_attempt = now;
        Ok(())
    }

    /// Run one recovery attempt: execute the strategy's action, record it,
    /// and complete the session when the attempt succeeds or the budget is
    /// exhausted. Returns whether the attempt succeeded.
    pub fn execute_recovery_attempt(&mut self, session: &mut RecoverySession, now: i64) -> (r:
        Result<bool, UniversalNftError>)
        requires
            old(self).successful_recoveries < u64::MAX - 1,
            old(self).failed_recoveries < u64::MAX - 1,
            old(session).operation_context.fees_paid <= u64::MAX / 2,
            old(session).started_at <= now,
            0 <= old(session).started_at,
        ensures
            !(old(session).status is InProgress && old(session).attempts_made < old(
                session,
            ).max_attempts) ==> {
                &&& r is Err
                &&& *final(self) == *old(self)
                &&& *final(session) == *old(session)
            },
            (old(session).status is InProgress && old(session).attempts_made < old(
                session,
            ).max_attempts) ==> {
                let attempts = (old(session).attempts_made + 1) as u8;
                let strategy = old(session).recovery_strategy;
                let success = spec_attempt_success(
                    strategy,
                    attempts,
                    old(session).session_id,
                );
                &&& r == Ok::<bool, UniversalNftError>(success)
                &&& final(session).attempts_made == attempts
                &&& final(session).attempts_made <= final(session).max_attempts
                &&& final(session).session_id == old(session).session_id
                &&& final(session).original_error == old(session).original_error
                &&& final(session).recovery_strategy == old(session).recovery_strategy
                &&& final(session).operation_context == old(session).operation_context
                &&& final(session).max_attempts == old(session).max_attempts
                &&& final(session).started_at == old(session).started_at
                &&& final(session).bump == old(session).bump
                &&& final(self).total_recovery_attempts == old(self).total_recovery_attempts
                &&& final(self).last_recovery_attempt == old(self).last_recovery_attempt
                &&& final(self).authority == old(self).authority
                &&& final(self).max_concurrent_sessions == old(self).max_concurrent_sessions
                &&& final(self).auto_recovery_enabled == old(self).auto_recovery_enabled
                &&& final(self).aggressive_mode == old(self).aggressive_mode
                &&& final(self).stats_reset_at == old(self).stats_reset_at
                &&& final(self).bump == old(self).bump
                &&& final(session).actions_taken@.len() == old(session).actions_taken@.len() + 1
                &&& {
                    let action = final(session).actions_taken@.last();
                    &&& action.action_type is RetryTransaction
                    &&& action.timestamp == now
                    &&& action.parameters@ == spec_attempt_parameters(
                        attempts,
                        old(session).max_attempts,
                    )
                    &&& action.result == (if success {
                        ActionResult::Success
                    } else {
                        ActionResult::Failed
                    })
                    &&& action.compute_units == 5000
                }
                &&& (success ==> {
                    &&& final(session).status is Successful
                    &&& final(session).completed_at == Some(now)
                    &&& final(session).resources_consumed.duration_seconds == now - old(
                        session,
                    ).started_at
                    &&& (final(session).outcome matches Some(o) && {
                        &&& o.result is FullRecovery
                        &&& o.new_signature is None
                        &&& o.compensation is None
                        &&& o.lessons_learned@ == spec_lessons_learned(
                            old(session).original_error,
                        )
                    })
                    &&& final(self).successful_recoveries == old(self).successful_recoveries + 1
                    &&& final(self).failed_recoveries == old(self).failed_recoveries
                    &&& final(self).active_recovery_sessions == (if old(
                        self,
                    ).active_recovery_sessions > 0 {
                        old(self).active_recovery_sessions - 1
                    } else {
                        0int
                    })
                    &&& final(self).recovery_success_rate_bps == spec_success_rate_bps(
                        (old(self).successful_recoveries + 1) as u64,
                        old(self).failed_recoveries,
                    ) as u16
                })
                &&& (!success && attempts >= old(session).max_attempts ==> {
                    &&& final(session).status is Failed
                    &&& final(session).completed_at == Some(now)
                    &&& (final(session).outcome matches Some(o) && {
                        &&& o.result is UnrecoverableFailure
                        &&& o.new_signature is None
                        &&& (o.compensation matches Some(c) && {
                            &&& c.compensation_type is TokenCompensation
                            &&& c.amount == old(session).operation_context.fees_paid * 2
                            &&& c.token_mint is None
                        })
                        &&& o.lessons_learned@ == spec_lessons_learned(
                            old(session).original_error,
                        )
                    })
                    &&& final(self).failed_recoveries == old(self).failed_recoveries + 1
                    &&& final(self).successful_recoveries == old(self).successful_recoveries
                    &&& final(self).active_recovery_sessions == (if old(
                        self,
                    ).active_recovery_sessions > 0 {
                        old(self).active_recovery_sessions - 1
                    } else {
                        0int
                    })
                    &&& final(self).recovery_success_rate_bps == spec_success_rate_bps(
                        old(self).successful_recoveries,
                        (old(self).failed_recoveries + 1) as u64,
                    ) as u16
                })
                &&& (!success && attempts < old(session).max_attempts ==> {
                    &&& final(session).status == (if strategy is ManualIntervention {
                        RecoveryStatus::RequiresManualIntervention
                    } else {
                        RecoveryStatus::InProgress
                    })
                    &&& final(session).completed_at == old(session).completed_at
                    &&& final(session).outcome is None <==> old(session).outcome is None
                    &&& *final(self) == *old(self)
                })
            },
    {
        if !matches!(session.status, RecoveryStatus::InProgress) {
            return Err(UniversalNftError::InvalidTransferStatus);
        }
        if session.attempts_made >= session.max_attempts {
            return Err(UniversalNftError::InvalidTransferStatus);
        }

        session.attempts_made = session.attempts_made + 1;

        let success = match session.recovery_strategy {
            RecoveryStrategy::ExponentialBackoff => {
                session.attempts_made >= 2 && session.session_id % 10 < 7
            },
            RecoveryStrategy::ParameterAdjustment => {
                session.attempts_made >= 1 && session.session_id % 10 < 6
            },
            RecoveryStrategy::AlternativeExecution => session.session_id % 10 < 8,
            RecoveryStrategy::RollbackRetry => session.session_id % 10 < 7,
            RecoveryStrategy::CompensatingTransaction => session.session_id % 10 < 9,
            RecoveryStrategy::StateReconstruction => {
                session.attempts_made >= 2 && session.session_id % 10 < 5
            },
            RecoveryStrategy::GracefulDegradation => session.session_id % 10 < 9,
            RecoveryStrategy::ManualIntervention => {
                session.status = RecoveryStatus::RequiresManualIntervention;
                false
            },
        };

        let action = RecoveryAction {
            action_type: ActionType::RetryTransaction,
            timestamp: now,
            parameters: attempt_parameters(session.attempts_made, session.max_attempts),
            result: if success {
                ActionResult::Success
            } else {
                ActionResult::Failed
            },
            compute_units: 5000,
        };
        session.actions_taken.push(action);

        if success {
            self.complete_recovery_session(session, RecoveryResult::FullRecovery, now);
        } else if session.attempts_made >= session.max_attempts {
            self.complete_recovery_session(session, RecoveryResult::UnrecoverableFailure, now);
        }

        Ok(success)
    }

    /// Close a session with a terminal result: set its outcome, derive the
    /// compensation, release the concurrency slot, and refresh the rate.
    fn complete_recovery_session(
        &mut self,
        session: &mut RecoverySession,
        result: RecoveryResult,
        now: i64,
    )
        requires
            old(self).successful_recoveries < u64::MAX - 1,
            old(self).failed_recoveries < u64::MAX - 1,
            old(session).operation_context.fees_paid <= u64::MAX / 2,
            0 <= old(session).started_at <= now,
        ensures
            final(session).status == (match result {
                RecoveryResult::FullRecovery | RecoveryResult::PartialRecovery => RecoveryStatus::Successful,
                RecoveryResult::CompensatedFailure | RecoveryResult::UnrecoverableFailure => RecoveryStatus::Failed,
            }),
            final(session).completed_at == Some(now),
            final(session).resources_consumed == (ResourceUsage {
                duration_seconds: (now - old(session).started_at) as u64,
                ..old(session).resources_consumed
            }),
            final(session).outcome matches Some(o) && {
                &&& o.result == result
                &&& o.new_signature is None
                &&& (match spec_compensation_type(result) {
                    None => o.compensation is None,
                    Some(t) => o.compensation matches Some(c) && c.compensation_type == t
                        && c.amount == spec_compensation_amount(
                        result,
                        old(session).operation_context.fees_paid,
                    ) && c.token_mint is None,
                })
                &&& o.lessons_learned@ == spec_lessons_learned(old(session).original_error)
            },
            final(session).session_id == old(session).session_id,
            final(session).original_error == old(session).original_error,
            final(session).recovery_strategy == old(session).recovery_strategy,
            final(session).operation_context == old(session).operation_context,
            final(session).attempts_made == old(session).attempts_made,
            final(session).max_attempts == old(session).max_attempts,
            final(session).started_at == old(session).started_at,
            final(session).actions_taken@ == old(session).actions_taken@,
            final(session).bump == old(session).bump,
            *final(self) == (ErrorRecoveryManager {
                active_recovery_sessions: (if old(self).active_recovery_sessions > 0 {
                    old(self).active_recovery_sessions - 1
                } else {
                    0int
                }) as u16,
                successful_recoveries: (match result {
                    RecoveryResult::FullRecovery | RecoveryResult::PartialRecovery => old(
                        self,
                    ).successful_recoveries + 1,
                    _ => old(self).successful_recoveries as int,
                }) as u64,
                failed_recoveries: (match result {
                    RecoveryResult::FullRecovery | RecoveryResult::PartialRecovery => old(
                        self,
                    ).failed_recoveries as int,
                    _ => old(self).failed_recoveries + 1,
                }) as u64,
                recovery_success_rate_bps: (spec_success_rate_bps(
                    (match result {
                        RecoveryResult::FullRecovery | RecoveryResult::PartialRecovery => old(
                            self,
                        ).successful_recoveries + 1,
                        _ => old(self).successful_recoveries as int,
                    }) as u64,
                    (match result {
                        RecoveryResult::FullRecovery | RecoveryResult::PartialRecovery => old(
                            self,
                        ).failed_recoveries as int,
                        _ => old(self).failed_recoveries + 1,
                    }) as u64,
                )) as u16,
                ..*old(self)
            }),
    {
        session.status = match result {
            RecoveryResult::FullRecovery | RecoveryResult::PartialRecovery => RecoveryStatus::Successful,
            RecoveryResult::CompensatedFailure => RecoveryStatus::Failed,
            RecoveryResult::UnrecoverableFailure => RecoveryStatus::Failed,
        };
        session.completed_at = Some(now);
        session.resources_consumed.duration_seconds = (now - session.started_at) as u64;

        let compensation = self.calculate_compensation(
            result,
            session.operation_context.fees_paid,
        );
        session.outcome = Some(
            RecoveryOutcome {
                result,
                new_signature: None,
                compensation,
                lessons_learned: lessons_learned_text(session.original_error),
            },
        );

        self.active_recovery_sessions = self.active_recovery_sessions.saturating_sub(1);
        match result {
            RecoveryResult::FullRecovery | RecoveryResult::PartialRecovery => {
                self.successful_recoveries = self.successful_recoveries + 1;
            },
            _ => {
                self.failed_recoveries = self.failed_recoveries + 1;
            },
        }
        self.update_success_rate();
    }

    /// The strategy for an error class.
    pub fn determine_recovery_strategy(&self, error_type: ErrorType, compute_units_used: u32) -> (r:
        RecoveryStrategy)
        ensures
            r == spec_recovery_strategy(error_type, compute_units_used),
    {
        match error_type {
            ErrorType::TransactionFailed => {
                if compute_units_used > 150_000 {
                    RecoveryStrategy::ParameterAdjustment
                } else {
                    RecoveryStrategy::ExponentialBackoff
                }
            },
            ErrorType::NetworkTimeout => RecoveryStrategy::ExponentialBackoff,
            ErrorType::InsufficientFunds => RecoveryStrategy::CompensatingTransaction,
            ErrorType::ComputeExceeded => RecoveryStrategy::ParameterAdjustment,
            ErrorType::CrossChainTimeout => RecoveryStrategy::AlternativeExecution,
            ErrorType::GatewayUnavailable => RecoveryStrategy::GracefulDegradation,
            ErrorType::StateCorruption => RecoveryStrategy::StateReconstruction,
            ErrorType::ConcurrencyConflict => RecoveryStrategy::RollbackRetry,
            ErrorType::SecurityViolation => RecoveryStrategy::ManualIntervention,
            ErrorType::SystemOverload => RecoveryStrategy::GracefulDegradation,
            _ => RecoveryStrategy::ExponentialBackoff,
        }
    }

    /// The attempt budget for an error class under the current mode.
    pub fn calculate_max_attempts(&self, error_type: ErrorType, _strategy: RecoveryStrategy) -> (r:
        u8)
        ensures
            r == spec_max_attempts(self.aggressive_mode, error_type),
    {
        let base_attempts: u8 = match error_type {
            ErrorType::NetworkTimeout => 5,
            ErrorType::TransactionFailed => 3,
            ErrorType::ComputeExceeded => 2,
            ErrorType::CrossChainTimeout => 4,
            ErrorType::SecurityViolation => 1,
            _ => 3,
        };
        if self.aggressive_mode {
            let doubled = base_attempts * 2;
            if doubled > 10 {
                10
            } else {
                doubled
            }
        } else {
            base_attempts
        }
    }

    /// The compensation owed for a terminal result, derived from the fees
    /// the failed operation already paid — never invented.
    fn calculate_compensation(&self, result: RecoveryResult, fees_paid: u64) -> (r: Option<
        Compensation,
    >)
        requires
            fees_paid <= u64::MAX / 2,
        ensures
            match spec_compensation_type(result) {
                None => r is None,
                Some(t) => r matches Some(c) && c.compensation_type == t && c.amount
                    == spec_compensation_amount(result, fees_paid) && c.token_mint is None,
            },
    {
        match result {
            RecoveryResult::FullRecovery => None,
            RecoveryResult::PartialRecovery => Some(
                Compensation {
                    compensation_type: CompensationType::ServiceCredit,
                    amount: fees_paid / 2,
                    token_mint: None,
                    reason: "Partial service disruption".to_owned(),
                },
            ),
            RecoveryResult::CompensatedFailure => Some(
                Compensation {
                    compensation_type: CompensationType::FeeRefund,
                    amount: fees_paid,
                    token_mint: None,
                    reason: "Operation failed despite recovery attempts".to_owned(),
                },
            ),
            RecoveryResult::UnrecoverableFailure => Some(
                Compensation {
                    compensation_type: CompensationType::TokenCompensation,
                    amount: fees_paid * 2,
                    token_mint: None,
                    reason: "Unrecoverable system failure".to_owned(),
                },
            ),
        }
    }

    /// Refresh the success rate over completed sessions.
    fn update_success_rate(&mut self)
        ensures
            *final(self) == (ErrorRecoveryManager {
                recovery_success_rate_bps: (if old(self).successful_recoveries + old(
                    self,
                ).failed_recoveries > 0 {
                    spec_success_rate_bps(old(self).successful_recoveries, old(self).failed_recoveries)
                } else {
                    old(self).recovery_success_rate_bps as int
                }) as u16,
                ..*old(self)
            }),
    {
        let total: u64 = self.successful_recoveries.saturating_add(self.failed_recoveries);
        if total > 0 {
            let ghost succ = old(self).successful_recoveries;
            let ghost failed = old(self).failed_recoveries;
            let rate = (self.successful_recoveries as u128) * 10000 / ((
            self.successful_recoveries as u128) + (self.failed_recoveries as u128));
            proof {
                assert(succ * 10000 / (succ + failed) <= 10000) by (nonlinear_arith)
                    requires
                        succ >= 0,
                        failed >= 0,
                        succ + failed > 0,
                ;
            }
            self.recovery_success_rate_bps = rate as u16;
        }
    }

    /// Read the manager's statistics.
    pub fn get_recovery_stats(&self) -> (r: RecoveryStats)
        ensures
            r == spec_recovery_stats(*self),
    {
        let completed: u64 = self.successful_recoveries.saturating_add(self.failed_recoveries);
        let avg_attempts: u64 = if completed > 0 {
            ((self.total_recovery_attempts as u128) / ((self.successful_recoveries as u128) + (
            self.failed_recoveries as u128))) as u64
        } else {
            0
        };
        RecoveryStats {
            total_recovery_attempts: self.total_recovery_attempts,
            successful_recoveries: self.successful_recoveries,
            failed_recoveries: self.failed_recoveries,
            active_sessions: self.active_recovery_sessions,
            success_rate_bps: self.recovery_success_rate_bps,
            auto_recovery_enabled: self.auto_recovery_enabled,
            aggressive_mode: self.aggressive_mode,
            avg_attempts_per_session: avg_attempts,
        }
    }
}

} // verus!
