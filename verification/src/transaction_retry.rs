//! Retry coordination for transiently failed operations: bounded sessions,
//! exponential backoff with jitter, and adaptive delays derived from a
//! network-condition snapshot keyed by the failure reason.

use vstd::prelude::*;

use crate::errors::UniversalNftError;
use crate::arith::spec_capped;
use crate::text;

verus! {

/// Backoff configuration for retry sessions.
#[derive(Clone, Copy, Debug, PartialEq, Eq, Structural)]
pub struct RetryConfig {
    /// Maximum number of retry attempts per session.
    pub max_attempts: u8,
    /// Initial delay between attempts, in seconds.
    pub initial_delay_seconds: u16,
    /// Backoff multiplier, in basis points (10000 = 1.0x).
    pub backoff_multiplier_bps: u16,
    /// Maximum delay between attempts, in seconds.
    pub max_delay_seconds: u32,
    /// Jitter added to each delay, in basis points of the delay.
    pub jitter_percentage_bps: u16,
    /// Compute budget adjustment per attempt, in percent.
    pub compute_unit_adjustment_pct: i16,
    /// Priority fee adjustment per attempt, in percent.
    pub priority_fee_adjustment_pct: i16,
    /// Whether delays adapt to observed network conditions.
    pub adaptive_adjustments: bool,
}

pub open spec fn spec_default_retry_config() -> RetryConfig {
    RetryConfig {
        max_attempts: 5,
        initial_delay_seconds: 2,
        backoff_multiplier_bps: 20000,
        max_delay_seconds: 60,
        jitter_percentage_bps: 1000,
        compute_unit_adjustment_pct: 20,
        priority_fee_adjustment_pct: 50,
        adaptive_adjustments: true,
    }
}

impl Default for RetryConfig {
    /// Five attempts, two seconds doubling up to a minute, 10% jitter.
    fn default() -> (r: Self)
        ensures
            r == spec_default_retry_config(),
    {
        RetryConfig {
            max_attempts: 5,
            initial_delay_seconds: 2,
            backoff_multiplier_bps: 20000,
            max_delay_seconds: 60,
            jitter_percentage_bps: 1000,
            compute_unit_adjustment_pct: 20,
            priority_fee_adjustment_pct: 50,
            adaptive_adjustments: true,
        }
    }
}

/// Lifecycle of one retry session.
#[derive(Clone, Copy, Debug, PartialEq, Eq, Structural)]
pub enum RetrySessionStatus {
    Scheduled,
    InProgress,
    Successful,
    Failed,
    Cancelled,
    Paused,
}

/// Why an attempt failed; drives the adaptive backoff parameters.
#[derive(Clone, Copy, Debug, PartialEq, Eq, Structural)]
pub enum RetryFailureReason {
    NetworkTimeout,
    InsufficientComputeUnits,
    InsufficientPriorityFee,
    BlockhashExpired,
    AccountNotFound,
    InsufficientFunds,
    SimulationFailed,
    NodeOverloaded,
    UnknownError,
}

/// A parameter adjustment applied during a retry.
#[derive(Clone, Copy, Debug, PartialEq, Eq, Structural)]
pub enum OptimizationType {
    ComputeUnitIncrease,
    ComputeUnitDecrease,
    PriorityFeeIncrease,
    PriorityFeeDecrease,
    BlockhashRefresh,
    AccountPreloading,
    InstructionBatching,
    EndpointSwitch,
}

/// Record of one adjustment applied during a retry attempt.
#[derive(Clone, Copy, Debug, PartialEq, Eq, Structural)]
pub struct RetryOptimization {
    pub optimization_type: OptimizationType,
    pub before_value: u64,
    pub after_value: u64,
    pub applied_at_attempt: u8,
    pub was_successful: bool,
}

/// One retry session: the failed operation, its configuration snapshot, the
/// attempt counter, and the resources spent so far.
pub struct RetrySession {
    /// Session id; also seeds the jitter.
    pub session_id: u64,
    /// Reference to the transaction that originally failed.
    pub original_tx_signature: String,
    /// Configuration snapshot for this session.
    pub retry_config: RetryConfig,
    /// Attempts made so far.
    pub current_attempt: u8,
    /// Session status.
    pub status: RetrySessionStatus,
    /// Failure reasons encountered, in order.
    pub failure_reasons: Vec<RetryFailureReason>,
    /// When the session was created.
    pub started_at: i64,
    /// When the last attempt ran.
    pub last_attempt_at: i64,
    /// Earliest time the next attempt may run.
    pub next_retry_at: i64,
    /// Total time spent on retries, in seconds.
    pub total_retry_time: u64,
    /// Compute units consumed across all attempts.
    pub total_compute_units: u64,
    /// Fees spent across all attempts.
    pub total_fees_spent: u64,
    /// Signature of the successful transaction, once there is one.
    pub successful_tx_signature: Option<String>,
    /// Adjustments applied during the session.
    pub optimizations_applied: Vec<RetryOptimization>,
    /// Derivation bump seed.
    pub bump: u8,
}

/// The coordinator: global counters, the concurrent-session cap, and the
/// default configuration handed to new sessions.
pub struct TransactionRetryManager {
    /// Coordinator authority.
    pub authority: [u8; 32],
    /// Total retry attempts across all sessions.
    pub total_retry_attempts: u64,
    /// Sessions that ended in success.
    pub successful_retries: u64,
    /// Sessions that exhausted their attempts.
    pub failed_retries: u64,
    /// Currently active sessions.
    pub active_retry_sessions: u16,
    /// Cap on concurrently active sessions.
    pub max_concurrent_sessions: u16,
    /// Default configuration for new sessions.
    pub default_config: RetryConfig,
    /// Whether delays adapt to network conditions.
    pub adaptive_retry_enabled: bool,
    /// When the last attempt ran.
    pub last_retry_attempt: i64,
    /// Derivation bump seed.
    pub bump: u8,
}

/// Observed network conditions, as one snapshot.
#[derive(Clone, Copy, Debug, PartialEq, Eq, Structural)]
pub struct NetworkConditions {
    pub congestion_level: CongestionLevel,
    pub average_confirmation_time_ms: u32,
    pub current_base_fee: u64,
    pub suggested_priority_fee: u64,
    pub recommended_compute_units: u32,
    /// Stability score, 0 to 100.
    pub network_stability_score: u8,
}

#[derive(Clone, Copy, Debug, PartialEq, Eq, Structural)]
pub enum CongestionLevel {
    Low,
    Medium,
    High,
    Critical,
}

/// Retry parameters derived from conditions and failure reason.
#[derive(Clone, Copy, Debug, PartialEq, Eq, Structural)]
pub struct RetryParameters {
    pub delay_seconds: u32,
    pub compute_unit_adjustment_pct: i16,
    pub priority_fee_adjustment_pct: i16,
    pub should_refresh_blockhash: bool,
    pub should_switch_endpoint: bool,
}

/// The network snapshot the analyzer reports. An estimate standing in for
/// live network metrics; every delay derived from it is exact relative to
/// this snapshot.
pub open spec fn spec_network_conditions() -> NetworkConditions {
    NetworkConditions {
        congestion_level: CongestionLevel::Medium,
        average_confirmation_time_ms: 2500,
        current_base_fee: 5000,
        suggested_priority_fee: 10000,
        recommended_compute_units: 200_000,
        network_stability_score: 85,
    }
}

pub open spec fn spec_base_delay(level: CongestionLevel) -> int {
    match level {
        CongestionLevel::Low => 2,
        CongestionLevel::Medium => 5,
        CongestionLevel::High => 10,
        CongestionLevel::Critical => 20,
    }
}

/// Delay multiplier per failure reason, in tenths: a node overload scales
/// the delay by 3.0x, an expired blockhash halves it.
pub open spec fn spec_delay_multiplier_tenths(reason: RetryFailureReason) -> int {
    match reason {
        RetryFailureReason::NetworkTimeout => 20,
        RetryFailureReason::NodeOverloaded => 30,
        RetryFailureReason::BlockhashExpired => 5,
        _ => 15,
    }
}

pub open spec fn spec_compute_adjustment(reason: RetryFailureReason) -> i16 {
    match reason {
        RetryFailureReason::InsufficientComputeUnits => 25,
        RetryFailureReason::SimulationFailed => 15,
        _ => 0,
    }
}

pub open spec fn spec_priority_fee_adjustment(reason: RetryFailureReason) -> i16 {
    match reason {
        RetryFailureReason::InsufficientPriorityFee => 50,
        RetryFailureReason::NodeOverloaded => 100,
        _ => 10,
    }
}

/// The integer square root of `n`.
pub open spec fn spec_isqrt(n: nat) -> nat
    decreases n,
{
    if n == 0 {
        0
    } else {
        let r = spec_isqrt((n - 1) as nat);
        if (r + 1) * (r + 1) <= n {
            r + 1
        } else {
            r
        }
    }
}

pub proof fn lemma_isqrt_bounds(n: nat)
    ensures
        spec_isqrt(n) * spec_isqrt(n) <= n,
        n < (spec_isqrt(n) + 1) * (spec_isqrt(n) + 1),
    decreases n,
{
    if n > 0 {
        lemma_isqrt_bounds((n - 1) as nat);
        let r = spec_isqrt((n - 1) as nat);
        assert(r * r <= n - 1);
        assert(n - 1 < (r + 1) * (r + 1));
        if (r + 1) * (r + 1) <= n {
            assert(spec_isqrt(n) == r + 1);
            assert(spec_isqrt(n) * spec_isqrt(n) <= n) by (nonlinear_arith)
                requires
                    spec_isqrt(n) == r + 1,
                    (r + 1) * (r + 1) <= n,
            ;
            assert(n < (spec_isqrt(n) + 1) * (spec_isqrt(n) + 1)) by (nonlinear_arith)
                requires
                    spec_isqrt(n) == r + 1,
                    n <= (r + 1) * (r + 1),
                    r >= 0,
            ;
        } else {
            assert(spec_isqrt(n) == r);
            assert(spec_isqrt(n) * spec_isqrt(n) <= n) by (nonlinear_arith)
                requires
                    spec_isqrt(n) == r,
                    r * r <= n - 1,
                    n >= 1,
            ;
            assert(n < (spec_isqrt(n) + 1) * (spec_isqrt(n) + 1)) by (nonlinear_arith)
                requires
                    spec_isqrt(n) == r,
                    !((r + 1) * (r + 1) <= n),
            ;
        }
    } else {
        assert(spec_isqrt(n) == 0);
        assert(n < (spec_isqrt(n) + 1) * (spec_isqrt(n) + 1)) by (nonlinear_arith)
            requires
                n == 0,
                spec_isqrt(n) == 0,
        ;
    }
}

pub proof fn lemma_isqrt_unique(n: nat, r: nat)
    requires
        r * r <= n,
        n < (r + 1) * (r + 1),
    ensures
        r == spec_isqrt(n),
{
    lemma_isqrt_bounds(n);
    let s = spec_isqrt(n);
    if r < s {
        assert((r + 1) * (r + 1) <= s * s) by (nonlinear_arith)
            requires
                r + 1 <= s,
        ;
    } else if s < r {
        assert((s + 1) * (s + 1) <= r * r) by (nonlinear_arith)
            requires
                s + 1 <= r,
        ;
    }
}

/// Integer square root by upward search.
pub fn isqrt(n: u64) -> (r: u64)
    requires
        n <= u32::MAX,
    ensures
        r == spec_isqrt(n as nat),
{
    let mut r: u64 = 0;
    let mut searching = true;
    while searching
        invariant
            n <= u32::MAX,
            r * r <= n,
            r <= 0x1_0000,
            !searching ==> n < (r + 1) * (r + 1),
        decreases 0x1_0001 - r, (if searching {
            1int
        } else {
            0int
        }),
    {
        proof {
            vstd::arithmetic::mul::lemma_mul_upper_bound(
                r as int + 1,
                0x1_0001,
                r as int + 1,
                0x1_0001,
            );
        }
        let next = (r + 1) * (r + 1);
        if next <= n {
            proof {
                assert(r + 1 <= 0x1_0000) by (nonlinear_arith)
                    requires
                        (r + 1) * (r + 1) <= n,
                        n <= 0xFFFF_FFFF,
                        r >= 0,
                ;
            }
            r = r + 1;
        } else {
            searching = false;
        }
    }
    proof {
        lemma_isqrt_unique(n as nat, r as nat);
    }
    r
}

/// Scale factor of an attempt: its number raised to the power 3/2, rounded
/// down.
pub open spec fn spec_attempt_scale(attempt: u8) -> int {
    spec_isqrt((attempt * attempt * attempt) as nat) as int
}

/// Adaptive delay: the congestion base delay, scaled by the failure-reason
/// multiplier and by the attempt's power-3/2 growth.
pub open spec fn spec_adaptive_delay(
    conditions: NetworkConditions,
    reason: RetryFailureReason,
    attempt_number: u8,
) -> u32 {
    (spec_base_delay(conditions.congestion_level) * spec_delay_multiplier_tenths(reason)
        * spec_attempt_scale(attempt_number) / 10) as u32
}

pub open spec fn spec_retry_parameters(
    conditions: NetworkConditions,
    reason: RetryFailureReason,
    attempt_number: u8,
) -> RetryParameters {
    RetryParameters {
        delay_seconds: spec_adaptive_delay(conditions, reason, attempt_number),
        compute_unit_adjustment_pct: spec_compute_adjustment(reason),
        priority_fee_adjustment_pct: spec_priority_fee_adjustment(reason),
        should_refresh_blockhash: reason is BlockhashExpired,
        should_switch_endpoint: conditions.network_stability_score < 50,
    }
}

/// Analyzer of network conditions feeding the adaptive retry logic.
pub struct NetworkConditionAnalyzer;

impl NetworkConditionAnalyzer {
    /// Report the current network-condition snapshot.
    pub fn analyze_conditions() -> (r: NetworkConditions)
        ensures
            r == spec_network_conditions(),
    {
        NetworkConditions {
            congestion_level: CongestionLevel::Medium,
            average_confirmation_time_ms: 2500,
            current_base_fee: 5000,
            suggested_priority_fee: 10000,
            recommended_compute_units: 200_000,
            network_stability_score: 85,
        }
    }

    /// Derive retry parameters from conditions, the failure reason, and the
    /// attempt number.
    pub fn calculate_optimal_parameters(
        conditions: &NetworkConditions,
        failure_reason: &RetryFailureReason,
        attempt_number: u8,
    ) -> (r: RetryParameters)
        ensures
            r == spec_retry_parameters(*conditions, *failure_reason, attempt_number),
    {
        let base_delay: u64 = match conditions.congestion_level {
            CongestionLevel::Low => 2,
            CongestionLevel::Medium => 5,
            CongestionLevel::High => 10,
            CongestionLevel::Critical => 20,
        };
        let delay_multiplier_tenths: u64 = match failure_reason {
            RetryFailureReason::NetworkTimeout => 20,
            RetryFailureReason::NodeOverloaded => 30,
            RetryFailureReason::BlockhashExpired => 5,
            _ => 15,
        };
        let compute_adjustment: i16 = match failure_reason {
            RetryFailureReason::InsufficientComputeUnits => 25,
            RetryFailureReason::SimulationFailed => 15,
            _ => 0,
        };
        let priority_fee_adjustment: i16 = match failure_reason {
            RetryFailureReason::InsufficientPriorityFee => 50,
            RetryFailureReason::NodeOverloaded => 100,
            _ => 10,
        };
        proof {
            vstd::arithmetic::mul::lemma_mul_upper_bound(
                attempt_number as int,
                0xff,
                attempt_number as int,
                0xff,
            );
            vstd::arithmetic::mul::lemma_mul_upper_bound(
                (attempt_number as int) * (attempt_number as int),
                0xff as int * 0xff,
                attempt_number as int,
                0xff,
            );
        }
        let cube: u64 = (attempt_number as u64) * (attempt_number as u64) * (attempt_number as u64);
        let scale = isqrt(cube);
        proof {
            lemma_isqrt_bounds(cube as nat);
            assert(scale <= 0x1000) by (nonlinear_arith)
                requires
                    scale * scale <= cube,
                    cube < 0x1_000_000,
                    scale >= 0,
            ;
            vstd::arithmetic::mul::lemma_mul_upper_bound(
                base_delay as int,
                20,
                delay_multiplier_tenths as int,
                30,
            );
            vstd::arithmetic::mul::lemma_mul_upper_bound(
                (base_delay as int) * (delay_multiplier_tenths as int),
                600,
                scale as int,
                0x1000,
            );
        }
        let delay: u64 = base_delay * delay_multiplier_tenths * scale / 10;
        RetryParameters {
            delay_seconds: delay as u32,
            compute_unit_adjustment_pct: compute_adjustment,
            priority_fee_adjustment_pct: priority_fee_adjustment,
            should_refresh_blockhash: matches!(failure_reason, RetryFailureReason::BlockhashExpired),
            should_switch_endpoint: conditions.network_stability_score < 50,
        }
    }
}

/// The capped exponential backoff delay of an attempt: the initial delay,
/// multiplied per further attempt by the configured factor, never above the
/// configured maximum.
pub open spec fn spec_backoff_delay(config: RetryConfig, attempt: nat) -> int
    decreases attempt,
{
    if attempt <= 1 {
        spec_capped(config.initial_delay_seconds as int, config.max_delay_seconds as int)
    } else {
        spec_capped(
            spec_backoff_delay(config, (attempt - 1) as nat) * config.backoff_multiplier_bps
                / 10000,
            config.max_delay_seconds as int,
        )
    }
}

/// The session-specific jitter added to a delay: a deterministic fraction,
/// seeded by the session id, of the configured jitter share of the delay.
pub open spec fn spec_jitter(config: RetryConfig, session_id: u64, delay: int) -> int {
    delay * config.jitter_percentage_bps * (session_id % 1000) / 10000 / 1000
}

/// The full backoff delay of an attempt, jitter included.
pub open spec fn spec_session_delay(config: RetryConfig, session_id: u64, attempt: nat) -> int {
    spec_backoff_delay(config, attempt) + spec_jitter(
        config,
        session_id,
        spec_backoff_delay(config, attempt),
    )
}

pub proof fn lemma_backoff_delay_bounds(config: RetryConfig, attempt: nat)
    ensures
        0 <= spec_backoff_delay(config, attempt) <= config.max_delay_seconds,
    decreases attempt,
{
    if attempt > 1 {
        lemma_backoff_delay_bounds(config, (attempt - 1) as nat);
        let prev = spec_backoff_delay(config, (attempt - 1) as nat);
        assert(prev * config.backoff_multiplier_bps >= 0) by (nonlinear_arith)
            requires
                prev >= 0,
                config.backoff_multiplier_bps >= 0,
        ;
        vstd::arithmetic::div_mod::lemma_div_is_ordered(
            0,
            prev * config.backoff_multiplier_bps,
            10000,
        );
    }
}

/// While the multiplier is at least 1.0x, capped backoff delays never
/// decrease from one attempt to the next.
pub proof fn lemma_backoff_monotone(config: RetryConfig, a: nat, b: nat)
    requires
        config.backoff_multiplier_bps >= 10000,
        a <= b,
    ensures
        spec_backoff_delay(config, a) <= spec_backoff_delay(config, b),
    decreases b,
{
    if a < b && b > 1 {
        lemma_backoff_monotone(config, a, (b - 1) as nat);
        let prev = spec_backoff_delay(config, (b - 1) as nat);
        lemma_backoff_delay_bounds(config, (b - 1) as nat);
        vstd::arithmetic::mul::lemma_mul_inequality(10000, config.backoff_multiplier_bps as int, prev);
        vstd::arithmetic::div_mod::lemma_div_is_ordered(
            prev * 10000,
            prev * config.backoff_multiplier_bps,
            10000,
        );
        vstd::arithmetic::div_mod::lemma_div_multiples_vanish(prev, 10000);
    }
}

/// Jitter included, delays still never decrease while the multiplier is at
/// least 1.0x: retries of one session spread out, never bunch up.
pub proof fn lemma_session_delay_monotone(config: RetryConfig, session_id: u64, a: nat, b: nat)
    requires
        config.backoff_multiplier_bps >= 10000,
        a <= b,
    ensures
        spec_session_delay(config, session_id, a) <= spec_session_delay(config, session_id, b),
{
    lemma_backoff_monotone(config, a, b);
    lemma_backoff_delay_bounds(config, a);
    let da = spec_backoff_delay(config, a);
    let db = spec_backoff_delay(config, b);
    vstd::arithmetic::mul::lemma_mul_inequality(da, db, config.jitter_percentage_bps as int);
    vstd::arithmetic::mul::lemma_mul_inequality(
        da * config.jitter_percentage_bps,
        db * config.jitter_percentage_bps,
        (session_id % 1000) as int,
    );
    vstd::arithmetic::div_mod::lemma_div_is_ordered(
        da * config.jitter_percentage_bps * (session_id % 1000),
        db * config.jitter_percentage_bps * (session_id % 1000),
        10000,
    );
    vstd::arithmetic::div_mod::lemma_div_is_ordered(
        da * config.jitter_percentage_bps * (session_id % 1000) / 10000,
        db * config.jitter_percentage_bps * (session_id % 1000) / 10000,
        1000,
    );
}

/// Whether the simulated attempt of a session succeeds: a deterministic
/// stand-in, seeded by the session id, for the outcome of the real
/// retransmission.
pub open spec fn spec_sim_success(session_id: u64, attempt: u8) -> bool {
    (session_id % 100) < spec_sim_success_pct(attempt)
}

/// Simulated success probability per attempt, in percent.
pub open spec fn spec_sim_success_pct(attempt: u8) -> u64 {
    if attempt == 1 {
        30
    } else if attempt == 2 {
        60
    } else if attempt == 3 {
        80
    } else {
        90
    }
}

/// The failure reason a failed simulated attempt reports.
pub open spec fn spec_sim_failure_reason(session_id: u64, attempt: u8) -> RetryFailureReason {
    let idx = (session_id + attempt) % 4;
    if idx == 0 {
        RetryFailureReason::NetworkTimeout
    } else if idx == 1 {
        RetryFailureReason::InsufficientComputeUnits
    } else if idx == 2 {
        RetryFailureReason::NodeOverloaded
    } else {
        RetryFailureReason::BlockhashExpired
    }
}

/// The transaction signature a successful simulated attempt reports.
pub open spec fn spec_sim_success_signature(session_id: u64) -> Seq<char> {
    "retry-success-"@ + text::spec_decimal_digits(session_id)
}

/// The optimization record a successful simulated attempt reports.
pub open spec fn spec_sim_optimization(attempt: u8) -> RetryOptimization {
    RetryOptimization {
        optimization_type: OptimizationType::ComputeUnitIncrease,
        before_value: 150_000,
        after_value: 180_000,
        applied_at_attempt: attempt,
        was_successful: true,
    }
}

/// Outcome of one retry attempt.
#[derive(Debug)]
pub struct RetryAttemptResult {
    pub result: AttemptResult,
    pub tx_signature: String,
    pub failure_reason: Option<RetryFailureReason>,
    pub compute_units_used: u32,
    pub fees_spent: u64,
    pub optimization_applied: Option<RetryOptimization>,
}

#[derive(Clone, Copy, Debug, PartialEq, Eq, Structural)]
pub enum AttemptResult {
    Success,
    Failed,
}

/// Read-only statistics of the coordinator.
#[derive(Clone, Copy, Debug, PartialEq, Eq, Structural)]
pub struct RetryStats {
    pub total_retry_attempts: u64,
    pub successful_retries: u64,
    pub failed_retries: u64,
    pub active_sessions: u16,
    pub success_rate_bps: u16,
    pub adaptive_retry_enabled: bool,
    pub max_concurrent_sessions: u16,
    pub last_retry_attempt: i64,
}

/// The statistics snapshot: a pure function of the coordinator's state, so
/// reading it twice without an intervening change gives identical results.
pub open spec fn spec_retry_stats(m: TransactionRetryManager) -> RetryStats {
    RetryStats {
        total_retry_attempts: m.total_retry_attempts,
        successful_retries: m.successful_retries,
        failed_retries: m.failed_retries,
        active_sessions: m.active_retry_sessions,
        success_rate_bps: (if m.successful_retries + m.failed_retries > 0 {
            m.successful_retries * 10000 / (m.successful_retries + m.failed_retries)
        } else {
            10000int
        }) as u16,
        adaptive_retry_enabled: m.adaptive_retry_enabled,
        max_concurrent_sessions: m.max_concurrent_sessions,
        last_retry_attempt: m.last_retry_attempt,
    }
}

/// The delay before the first attempt of a session: adaptive when enabled,
/// else the configured initial delay.
pub open spec fn spec_initial_retry_delay(
    adaptive: bool,
    config: RetryConfig,
    reason: RetryFailureReason,
) -> int {
    if adaptive {
        spec_adaptive_delay(spec_network_conditions(), reason, 1) as int
    } else {
        config.initial_delay_seconds as int
    }
}

/// The delay scheduled after a failed attempt: adaptive when enabled, else
/// capped exponential backoff with jitter.
pub open spec fn spec_next_retry_delay(
    adaptive: bool,
    config: RetryConfig,
    session_id: u64,
    reason: RetryFailureReason,
    attempt: u8,
) -> int {
    if adaptive {
        spec_adaptive_delay(spec_network_conditions(), reason, attempt) as int
    } else {
        spec_session_delay(config, session_id, attempt as nat)
    }
}

fn sim_success_signature(session_id: u64) -> (r: String)
    ensures
        r@ == spec_sim_success_signature(session_id),
{
    let mut s = "retry-success-".to_owned();
    text::push_decimal(&mut s, session_id);
    s
}

impl TransactionRetryManager {
    /// Initialize the coordinator: clean counters, twenty concurrent
    /// sessions allowed, adaptive delays on.
    pub fn initialize(&mut self, authority: [u8; 32], config: RetryConfig, bump: u8) -> (r: Result<
        (),
        UniversalNftError,
    >)
        ensures
            r is Ok,
            final(self).authority == authority,
            final(self).total_retry_attempts == 0,
            final(self).successful_retries == 0,
            final(self).failed_retries == 0,
            final(self).active_retry_sessions == 0,
            final(self).max_concurrent_sessions == 20,
            final(self).default_config == config,
            final(self).adaptive_retry_enabled,
            final(self).last_retry_attempt == 0,
            final(self).bump == bump,
    {
        self.authority = authority;
        self.total_retry_attempts = 0;
        self.successful_retries = 0;
        self.failed_retries = 0;
        self.active_retry_sessions = 0;
        self.max_concurrent_sessions = 20;
        self.default_config = config;
        self.adaptive_retry_enabled = true;
        self.last_retry_attempt = 0;
        self.bump = bump;
        Ok(())
    }

    /// Open a retry session for a failed transaction, scheduling its first
    /// attempt. Fails when the concurrent-session cap is reached.
    pub fn schedule_retry(
        &mut self,
        session: &mut RetrySession,
        session_id: u64,
        original_tx_signature: String,
        failure_reason: RetryFailureReason,
        custom_config: Option<RetryConfig>,
        now: i64,
    ) -> (r: Result<(), UniversalNftError>)
        requires
            0 <= now <= i64::MAX - 0x10_0000,
        ensures
            old(self).active_retry_sessions >= old(self).max_concurrent_sessions ==> {
                &&& r == Err::<(), UniversalNftError>(UniversalNftError::InvalidTransferStatus)
                &&& *final(self) == *old(self)
                &&& *final(session) == *old(session)
            },
            old(self).active_retry_sessions < old(self).max_concurrent_sessions ==> {
                let config = match custom_config {
                    Some(c) => c,
                    None => old(self).default_config,
                };
                &&& r is Ok
                &&& final(session).session_id == session_id
                &&& final(session).original_tx_signature == original_tx_signature
                &&& final(session).retry_config == config
                &&& final(session).current_attempt == 0
                &&& final(session).status is Scheduled
                &&& final(session).failure_reasons@ == seq![failure_reason]
                &&& final(session).started_at == now
                &&& final(session).last_attempt_at == 0
                &&& final(session).next_retry_at == now + spec_initial_retry_delay(
                    old(self).adaptive_retry_enabled,
                    config,
                    failure_reason,
                )
                &&& final(session).total_retry_time == 0
                &&& final(session).total_compute_units == 0
                &&& final(session).total_fees_spent == 0
                &&& final(session).successful_tx_signature is None
                &&& final(session).optimizations_applied@ == Seq::<RetryOptimization>::empty()
                &&& final(session).bump == old(session).bump
                &&& *final(self) == (TransactionRetryManager {
                    active_retry_sessions: (old(self).active_retry_sessions + 1) as u16,
                    ..*old(self)
                })
            },
    {
        if self.active_retry_sessions >= self.max_concurrent_sessions {
            return Err(UniversalNftError::InvalidTransferStatus);
        }
        let config = match custom_config {
            Some(c) => c,
            None => self.default_config,
        };
        let initial_delay: i64 = if self.adaptive_retry_enabled {
            let conditions = NetworkConditionAnalyzer::analyze_conditions();
            let params = NetworkConditionAnalyzer::calculate_optimal_parameters(
                &conditions,
                &failure_reason,
                1,
            );
            params.delay_seconds as i64
        } else {
            config.initial_delay_seconds as i64
        };
        proof {
            let conditions_s = spec_network_conditions();
            lemma_isqrt_bounds(1nat);
            assert(spec_isqrt(1nat) <= 1) by (nonlinear_arith)
                requires
                    spec_isqrt(1nat) * spec_isqrt(1nat) <= 1,
                    spec_isqrt(1nat) >= 0,
            ;
            assert(spec_attempt_scale(1u8) <= 1);
            assert(spec_base_delay(conditions_s.congestion_level)
                * spec_delay_multiplier_tenths(failure_reason) * spec_attempt_scale(1u8) <= 150)
                by (nonlinear_arith)
                requires
                    spec_base_delay(conditions_s.congestion_level) == 5,
                    0 <= spec_delay_multiplier_tenths(failure_reason) <= 30,
                    0 <= spec_attempt_scale(1u8) <= 1,
            ;
            vstd::arithmetic::div_mod::lemma_div_is_ordered(
                spec_base_delay(conditions_s.congestion_level) * spec_delay_multiplier_tenths(
                    failure_reason,
                ) * spec_attempt_scale(1u8),
                150,
                10,
            );
            assert(0 <= spec_base_delay(conditions_s.congestion_level)
                * spec_delay_multiplier_tenths(failure_reason) * spec_attempt_scale(1u8))
                by (nonlinear_arith)
                requires
                    spec_base_delay(conditions_s.congestion_level) == 5,
                    0 <= spec_delay_multiplier_tenths(failure_reason) <= 30,
                    0 <= spec_attempt_scale(1u8) <= 1,
            ;
            vstd::arithmetic::div_mod::lemma_div_is_ordered(
                0,
                spec_base_delay(conditions_s.congestion_level) * spec_delay_multiplier_tenths(
                    failure_reason,
                ) * spec_attempt_scale(1u8),
                10,
            );
            assert(spec_adaptive_delay(conditions_s, failure_reason, 1) <= 15);
        }

        session.session_id = session_id;
        session.original_tx_signature = original_tx_signature;
        session.retry_config = config;
        session.current_attempt = 0;
        session.status = RetrySessionStatus::Scheduled;
        let mut reasons: Vec<RetryFailureReason> = Vec::new();
        reasons.push(failure_reason);
        session.failure_reasons = reasons;
        session.started_at = now;
        session.last_attempt_at = 0;
        session.next_retry_at = now + initial_delay;
        session.total_retry_time = 0;
        session.total_compute_units = 0;
        session.total_fees_spent = 0;
        session.successful_tx_signature = None;
        session.optimizations_applied = Vec::new();

        self.active_retry_sessions = self.active_retry_sessions + 1;
        proof {
            assert(session.failure_reasons@ =~= seq![failure_reason]);
            assert(session.optimizations_applied@ =~= Seq::<RetryOptimization>::empty());
        }
        Ok(())
    }

    /// Run one retry attempt of a scheduled session that is due. On success
    /// the session finalizes as successful; at the attempt cap it finalizes
    /// as failed; otherwise the next attempt is scheduled with a fresh
    /// delay. Resource usage accrues either way.
    pub fn execute_retry_attempt(&mut self, session: &mut RetrySession, now: i64) -> (r: Result<
        RetryAttemptResult,
        UniversalNftError,
    >)
        requires
            0 <= now <= i64::MAX - 0x10_0000_0000,
            old(self).total_retry_attempts < u64::MAX,
            old(self).successful_retries < u64::MAX,
            old(self).failed_retries < u64::MAX,
            old(session).total_compute_units <= u64::MAX - 0x4_0000,
            old(session).total_fees_spent <= u64::MAX - 0x2000,
        ensures
            !(old(session).status is Scheduled && now >= old(session).next_retry_at && old(
                session,
            ).current_attempt < old(session).retry_config.max_attempts) ==> {
                &&& r is Err
                &&& *final(self) == *old(self)
                &&& *final(session) == *old(session)
            },
            (old(session).status is Scheduled && now >= old(session).next_retry_at && old(
                session,
            ).current_attempt < old(session).retry_config.max_attempts) ==> {
                let attempt = (old(session).current_attempt + 1) as u8;
                let sid = old(session).session_id;
                let success = spec_sim_success(sid, attempt);
                let reason = spec_sim_failure_reason(sid, attempt);
                &&& final(session).current_attempt == attempt
                &&& final(session).current_attempt <= final(session).retry_config.max_attempts
                &&& final(session).last_attempt_at == now
                &&& final(session).session_id == sid
                &&& final(session).retry_config == old(session).retry_config
                &&& final(session).original_tx_signature == old(session).original_tx_signature
                &&& final(session).started_at == old(session).started_at
                &&& final(session).total_retry_time == old(session).total_retry_time
                &&& final(session).bump == old(session).bump
                &&& final(self).total_retry_attempts == old(self).total_retry_attempts + 1
                &&& final(self).last_retry_attempt == now
                &&& final(self).authority == old(self).authority
                &&& final(self).max_concurrent_sessions == old(self).max_concurrent_sessions
                &&& final(self).default_config == old(self).default_config
                &&& final(self).adaptive_retry_enabled == old(self).adaptive_retry_enabled
                &&& final(self).bump == old(self).bump
                &&& (success ==> {
                    &&& final(session).status is Successful
                    &&& final(session).successful_tx_signature matches Some(s) && s@
                        == spec_sim_success_signature(sid)
                    &&& final(session).failure_reasons@ == old(session).failure_reasons@
                    &&& final(session).optimizations_applied@ == old(
                        session,
                    ).optimizations_applied@.push(spec_sim_optimization(attempt))
                    &&& final(session).total_compute_units == old(session).total_compute_units
                        + 180_000
                    &&& final(session).total_fees_spent == old(session).total_fees_spent + 5000
                    &&& final(self).successful_retries == old(self).successful_retries + 1
                    &&& final(self).failed_retries == old(self).failed_retries
                    &&& final(self).active_retry_sessions == (if old(self).active_retry_sessions
                        > 0 {
                        old(self).active_retry_sessions - 1
                    } else {
                        0int
                    })
                })
                &&& (!success ==> {
                    &&& final(session).failure_reasons@ == old(session).failure_reasons@.push(
                        reason,
                    )
                    &&& final(session).optimizations_applied@ == old(
                        session,
                    ).optimizations_applied@
                    &&& final(session).successful_tx_signature == old(
                        session,
                    ).successful_tx_signature
                    &&& final(session).total_compute_units == old(session).total_compute_units
                        + 50_000
                    &&& final(session).total_fees_spent == old(session).total_fees_spent + 2000
                    &&& final(self).successful_retries == old(self).successful_retries
                    &&& (attempt >= old(session).retry_config.max_attempts ==> {
                        &&& final(session).status is Failed
                        &&& final(self).failed_retries == old(self).failed_retries + 1
                        &&& final(self).active_retry_sessions == (if old(
                            self,
                        ).active_retry_sessions > 0 {
                            old(self).active_retry_sessions - 1
                        } else {
                            0int
                        })
                    })
                    &&& (attempt < old(session).retry_config.max_attempts ==> {
                        &&& final(session).status is Scheduled
                        &&& final(session).next_retry_at == now + spec_next_retry_delay(
                            old(self).adaptive_retry_enabled,
                            old(session).retry_config,
                            sid,
                            reason,
                            attempt,
                        )
                        &&& final(self).failed_retries == old(self).failed_retries
                        &&& final(self).active_retry_sessions == old(self).active_retry_sessions
                    })
                })
                &&& (r matches Ok(res) && {
                    &&& (res.result is Success) == success
                    &&& success ==> res.tx_signature@ == spec_sim_success_signature(sid)
                        && res.failure_reason is None && res.compute_units_used == 180_000
                        && res.fees_spent == 5000 && res.optimization_applied == Some(
                        spec_sim_optimization(attempt),
                    )
                    &&& !success ==> res.tx_signature@ == Seq::<char>::empty()
                        && res.failure_reason == Some(reason) && res.compute_units_used == 50_000
                        && res.fees_spent == 2000 && res.optimization_applied is None
                })
            },
    {
        if !matches!(session.status, RetrySessionStatus::Scheduled) {
            return Err(UniversalNftError::InvalidTransferStatus);
        }
        if now < session.next_retry_at {
            return Err(UniversalNftError::InvalidTransferStatus);
        }
        if session.current_attempt >= session.retry_config.max_attempts {
            return Err(UniversalNftError::InvalidTransferStatus);
        }

        session.current_attempt = session.current_attempt + 1;
        session.status = RetrySessionStatus::InProgress;
        session.last_attempt_at = now;
        self.total_retry_attempts = self.total_retry_attempts + 1;
        self.last_retry_attempt = now;

        let attempt_result = self.simulate_retry_attempt(session);

        match attempt_result.result {
            AttemptResult::Success => {
                session.status = RetrySessionStatus::Successful;
                session.successful_tx_signature = Some(sim_success_signature(session.session_id));
                self.successful_retries = self.successful_retries + 1;
                self.active_retry_sessions = self.active_retry_sessions.saturating_sub(1);
            },
            AttemptResult::Failed => {
                match attempt_result.failure_reason {
                    Some(reason) => {
                        session.failure_reasons.push(reason);
                        if session.current_attempt >= session.retry_config.max_attempts {
                            session.status = RetrySessionStatus::Failed;
                            self.failed_retries = self.failed_retries + 1;
                            self.active_retry_sessions = self.active_retry_sessions.saturating_sub(
                                1,
                            );
                        } else {
                            self.schedule_next_retry(session, reason, now);
                        }
                    },
                    None => {
                        // The simulation reports a reason with every failure.
                        if session.current_attempt >= session.retry_config.max_attempts {
                            session.status = RetrySessionStatus::Failed;
                            self.failed_retries = self.failed_retries + 1;
                            self.active_retry_sessions = self.active_retry_sessions.saturating_sub(
                                1,
                            );
                        }
                    },
                }
            },
        }

        session.total_compute_units = session.total_compute_units + (
        attempt_result.compute_units_used as u64);
        session.total_fees_spent = session.total_fees_spent + attempt_result.fees_spent;
        if let Some(optimization) = attempt_result.optimization_applied {
            session.optimizations_applied.push(optimization);
        }
        Ok(attempt_result)
    }

    /// Schedule the next attempt of a session after a failure.
    fn schedule_next_retry(&self, session: &mut RetrySession, reason: RetryFailureReason, now: i64)
        requires
            0 <= now <= i64::MAX - 0x10_0000_0000,
        ensures
            final(session).next_retry_at == now + spec_next_retry_delay(
                self.adaptive_retry_enabled,
                old(session).retry_config,
                old(session).session_id,
                reason,
                old(session).current_attempt,
            ),
            *final(session) == (RetrySession {
                next_retry_at: final(session).next_retry_at,
                status: RetrySessionStatus::Scheduled,
                ..*old(session)
            }),
    {
        let delay: i64 = if self.adaptive_retry_enabled {
            let conditions = NetworkConditionAnalyzer::analyze_conditions();
            let params = NetworkConditionAnalyzer::calculate_optimal_parameters(
                &conditions,
                &reason,
                session.current_attempt,
            );
            proof {
                let ghost attempt = session.current_attempt;
                let ghost scale = spec_attempt_scale(attempt);
                let ghost product = spec_base_delay(spec_network_conditions().congestion_level)
                    * spec_delay_multiplier_tenths(reason) * scale;
                lemma_isqrt_bounds((attempt * attempt * attempt) as nat);
                assert(scale <= 0x1000) by (nonlinear_arith)
                    requires
                        scale * scale <= (attempt as int) * (attempt as int) * (attempt as int),
                        0 <= (attempt as int) <= 0xff,
                        scale >= 0,
                ;
                assert(0 <= product <= 5 as int * 30 * 0x1000) by (nonlinear_arith)
                    requires
                        product == spec_base_delay(spec_network_conditions().congestion_level)
                            * spec_delay_multiplier_tenths(reason) * scale,
                        spec_base_delay(spec_network_conditions().congestion_level) == 5,
                        0 <= spec_delay_multiplier_tenths(reason) <= 30,
                        0 <= scale <= 0x1000,
                ;
                vstd::arithmetic::div_mod::lemma_div_is_ordered(0, product, 10);
                vstd::arithmetic::div_mod::lemma_div_is_ordered(product, 5 as int * 30 * 0x1000, 10);
                assert(spec_adaptive_delay(spec_network_conditions(), reason, attempt)
                    <= 0x10_0000);
            }
            params.delay_seconds as i64
        } else {
            self.calculate_exponential_backoff_delay(session)
        };
        session.next_retry_at = now + delay;
        session.status = RetrySessionStatus::Scheduled;
    }

    /// Compute a session's capped exponential backoff delay with jitter.
    pub fn calculate_exponential_backoff_delay(&self, session: &RetrySession) -> (r: i64)
        ensures
            r == spec_session_delay(
                session.retry_config,
                session.session_id,
                session.current_attempt as nat,
            ),
            0 <= r < 0x10_0000_0000,
    {
        let config = session.retry_config;
        let max_delay = config.max_delay_seconds as u64;
        let mut delay: u64 = config.initial_delay_seconds as u64;
        if delay > max_delay {
            delay = max_delay;
        }
        let mut k: u8 = 1;
        while k < session.current_attempt
            invariant
                1 <= k,
                session.current_attempt > 1 ==> k <= session.current_attempt,
                session.current_attempt <= 1 ==> k == 1,
                max_delay == config.max_delay_seconds,
                delay == spec_backoff_delay(config, k as nat),
                delay <= max_delay,
            decreases session.current_attempt - k,
        {
            proof {
                vstd::arithmetic::mul::lemma_mul_upper_bound(
                    delay as int,
                    0xFFFF_FFFF,
                    config.backoff_multiplier_bps as int,
                    0xFFFF,
                );
            }
            let mut next = delay * (config.backoff_multiplier_bps as u64) / 10000;
            if next > max_delay {
                next = max_delay;
            }
            delay = next;
            k += 1;
        }
        proof {
            if session.current_attempt <= 1 {
                assert(spec_backoff_delay(config, session.current_attempt as nat)
                    == spec_backoff_delay(config, 1nat));
            }
            lemma_backoff_delay_bounds(config, session.current_attempt as nat);
            assert(delay == spec_backoff_delay(config, session.current_attempt as nat));
        }
        proof {
            vstd::arithmetic::mul::lemma_mul_upper_bound(
                delay as int,
                0xFFFF_FFFF,
                config.jitter_percentage_bps as int,
                0xFFFF,
            );
        }
        let delay_jitter: u64 = delay * (config.jitter_percentage_bps as u64);
        proof {
            vstd::arithmetic::mul::lemma_mul_upper_bound(
                delay_jitter as int,
                0xFFFF_FFFF as int * 0xFFFF,
                (session.session_id % 1000) as int,
                999,
            );
        }
        let scaled: u64 = delay_jitter * (session.session_id % 1000);
        let jitter: u64 = scaled / 10000 / 1000;
        proof {
            vstd::arithmetic::div_mod::lemma_div_is_ordered(
                scaled as int,
                0xFFFF_FFFF as int * 0xFFFF * 999,
                10000,
            );
            vstd::arithmetic::div_mod::lemma_div_is_ordered(
                (scaled as int) / 10000,
                0xFFFF_FFFF as int * 0xFFFF * 999 / 10000,
                1000,
            );
        }
        proof {
            assert(jitter == spec_jitter(config, session.session_id, delay as int));
            assert(delay + jitter == spec_session_delay(
                config,
                session.session_id,
                session.current_attempt as nat,
            ));
        }
        (delay + jitter) as i64
    }

    /// Cancel a scheduled or paused session; it leaves the active count.
    pub fn cancel_retry_session(&mut self, session: &mut RetrySession) -> (r: Result<
        (),
        UniversalNftError,
    >)
        ensures
            (old(session).status is Scheduled || old(session).status is Paused) ==> {
                &&& r is Ok
                &&& *final(session) == (RetrySession {
                    status: RetrySessionStatus::Cancelled,
                    ..*old(session)
                })
                &&& *final(self) == (TransactionRetryManager {
                    active_retry_sessions: (if old(self).active_retry_sessions > 0 {
                        old(self).active_retry_sessions - 1
                    } else {
                        0int
                    }) as u16,
                    ..*old(self)
                })
            },
            !(old(session).status is Scheduled || old(session).status is Paused) ==> {
                &&& r == Err::<(), UniversalNftError>(UniversalNftError::InvalidTransferStatus)
                &&& *final(self) == *old(self)
                &&& *final(session) == *old(session)
            },
    {
        if !(matches!(session.status, RetrySessionStatus::Scheduled) || matches!(
            session.status,
            RetrySessionStatus::Paused,
        )) {
            return Err(UniversalNftError::InvalidTransferStatus);
        }
        session.status = RetrySessionStatus::Cancelled;
        self.active_retry_sessions = self.active_retry_sessions.saturating_sub(1);
        Ok(())
    }

    /// Replace the default configuration handed to new sessions.
    pub fn update_retry_config(&mut self, new_config: RetryConfig) -> (r: Result<
        (),
        UniversalNftError,
    >)
        ensures
            r is Ok,
            *final(self) == (TransactionRetryManager { default_config: new_config, ..*old(self) }),
    {
        self.default_config = new_config;
        Ok(())
    }

    /// Read the coordinator's statistics.
    pub fn get_retry_stats(&self) -> (r: RetryStats)
        ensures
            r == spec_retry_stats(*self),
    {
        let completed: u64 = self.successful_retries.saturating_add(self.failed_retries);
        let success_rate: u16 = if completed > 0 {
            ((self.successful_retries as u128) * 10000 / ((self.successful_retries as u128) + (
            self.failed_retries as u128))) as u16
        } else {
            10000
        };
        proof {
            if self.successful_retries + self.failed_retries > 0 {
                assert(self.successful_retries * 10000 / (self.successful_retries
                    + self.failed_retries) <= 10000) by (nonlinear_arith)
                    requires
                        self.successful_retries >= 0,
                        self.failed_retries >= 0,
                        self.successful_retries + self.failed_retries > 0,
                ;
            }
        }
        RetryStats {
            total_retry_attempts: self.total_retry_attempts,
            successful_retries: self.successful_retries,
            failed_retries: self.failed_retries,
            active_sessions: self.active_retry_sessions,
            success_rate_bps: success_rate,
            adaptive_retry_enabled: self.adaptive_retry_enabled,
            max_concurrent_sessions: self.max_concurrent_sessions,
            last_retry_attempt: self.last_retry_attempt,
        }
    }

    /// Deterministic stand-in for executing the retransmission: the outcome
    /// is a pure function of the session id and the attempt number, so
    /// tests can drive every path.
    fn simulate_retry_attempt(&self, session: &RetrySession) -> (r: RetryAttemptResult)
        ensures
            (r.result is Success) == spec_sim_success(session.session_id, session.current_attempt),
            spec_sim_success(session.session_id, session.current_attempt) ==> {
                &&& r.tx_signature@ == spec_sim_success_signature(session.session_id)
                &&& r.failure_reason is None
                &&& r.compute_units_used == 180_000
                &&& r.fees_spent == 5000
                &&& r.optimization_applied == Some(
                    spec_sim_optimization(session.current_attempt),
                )
            },
            !spec_sim_success(session.session_id, session.current_attempt) ==> {
                &&& r.tx_signature@ == Seq::<char>::empty()
                &&& r.failure_reason == Some(
                    spec_sim_failure_reason(session.session_id, session.current_attempt),
                )
                &&& r.compute_units_used == 50_000
                &&& r.fees_spent == 2000
                &&& r.optimization_applied is None
            },
    {
        let success_pct: u64 = if session.current_attempt == 1 {
            30
        } else if session.current_attempt == 2 {
            60
        } else if session.current_attempt == 3 {
            80
        } else {
            90
        };
        let is_successful = (session.session_id % 100) < success_pct;
        if is_successful {
            RetryAttemptResult {
                result: AttemptResult::Success,
                tx_signature: sim_success_signature(session.session_id),
                failure_reason: None,
                compute_units_used: 180_000,
                fees_spent: 5000,
                optimization_applied: Some(
                    RetryOptimization {
                        optimization_type: OptimizationType::ComputeUnitIncrease,
                        before_value: 150_000,
                        after_value: 180_000,
                        applied_at_attempt: session.current_attempt,
                        was_successful: true,
                    },
                ),
            }
        } else {
            let idx = (session.session_id % 4 + (session.current_attempt as u64) % 4) % 4;
            proof {
                vstd::arithmetic::div_mod::lemma_add_mod_noop(
                    session.session_id as int,
                    session.current_attempt as int,
                    4,
                );
            }
            let failure_reason = if idx == 0 {
                RetryFailureReason::NetworkTimeout
            } else if idx == 1 {
                RetryFailureReason::InsufficientComputeUnits
            } else if idx == 2 {
                RetryFailureReason::NodeOverloaded
            } else {
                RetryFailureReason::BlockhashExpired
            };
            RetryAttemptResult {
                result: AttemptResult::Failed,
                tx_signature: String::new(),
                failure_reason: Some(failure_reason),
                compute_units_used: 50_000,
                fees_spent: 2000,
                optimization_applied: None,
            }
        }
    }
}

} // verus!
