//! Circuit breaker for cross-chain operations: a four-state reliability
//! machine that admits, limits or rejects operations based on the failure
//! and success counts of a sliding time window.
//!
//! The window is reset lazily — on every admission check and every
//! success/failure report — never by a background timer; callers pass the
//! current time into each operation.

use vstd::prelude::*;

use crate::errors::UniversalNftError;

verus! {

/// The state of the breaker.
#[derive(Clone, Copy, Debug, PartialEq, Eq, Structural)]
pub enum CircuitState {
    /// Normal operation: every operation is admitted.
    Closed,
    /// Probing after an outage: a limited number of operations is admitted.
    HalfOpen,
    /// Full shutdown: every operation is rejected.
    Open,
    /// Authority override: every operation is admitted, nothing is counted.
    ManualOverride,
}

/// Tunable thresholds of the breaker.
#[derive(Clone, Copy, Debug, PartialEq, Eq, Structural)]
pub struct CircuitConfig {
    /// Failures in one window that trip the breaker.
    pub failure_threshold: u64,
    /// Length of the failure-counting window, in seconds.
    pub failure_window: i64,
    /// Minimum time the breaker stays open, in seconds.
    pub min_open_duration: i64,
    /// Consecutive successes that close the breaker from half-open.
    pub success_threshold: u64,
    /// Operations admitted per window while half-open.
    pub half_open_limit: u64,
}

pub open spec fn spec_default_circuit_config() -> CircuitConfig {
    CircuitConfig {
        failure_threshold: 5,
        failure_window: 300,
        min_open_duration: 600,
        success_threshold: 3,
        half_open_limit: 10,
    }
}

impl Default for CircuitConfig {
    /// Five failures in five minutes trip the breaker; it stays open for at
    /// least ten minutes; three clean successes close it again.
    fn default() -> (r: Self)
        ensures
            r == spec_default_circuit_config(),
    {
        CircuitConfig {
            failure_threshold: 5,
            failure_window: 300,
            min_open_duration: 600,
            success_threshold: 3,
            half_open_limit: 10,
        }
    }
}

/// Operation kinds submitted to the admission check.
#[derive(Clone, Copy, Debug, PartialEq, Eq, Structural)]
pub enum OperationType {
    CrossChainTransfer,
    NFTMinting,
    MetadataUpdate,
    SignatureVerification,
}

/// The breaker: current state, the counts of the current window, and the
/// timestamps that drive lazy window resets and open-duration checks.
pub struct CircuitBreaker {
    /// Current circuit state.
    pub state: CircuitState,
    /// Failure count in the current window.
    pub failure_count: u64,
    /// Success count in the current window.
    pub success_count: u64,
    /// Start of the current window.
    pub window_start: i64,
    /// When the breaker last changed state.
    pub last_state_change: i64,
    /// Configuration parameters.
    pub config: CircuitConfig,
    /// Authority that can manually override the breaker.
    pub authority: [u8; 32],
    /// Derivation bump seed.
    pub bump: u8,
}

/// Saturating increment of a window counter.
pub open spec fn spec_sat_inc(x: u64) -> u64 {
    if x == u64::MAX {
        u64::MAX
    } else {
        (x + 1) as u64
    }
}

impl CircuitBreaker {
    /// Timestamps held by the breaker are never negative, so that
    /// differences against a later `now` stay representable.
    pub open spec fn wf(self) -> bool {
        0 <= self.window_start && 0 <= self.last_state_change
    }

    /// The breaker after a lazy window check: counts zeroed and the window
    /// restarted once the configured duration has elapsed.
    pub open spec fn spec_update_window(self, now: i64) -> CircuitBreaker {
        if now - self.window_start >= self.config.failure_window {
            CircuitBreaker { window_start: now, failure_count: 0, success_count: 0, ..self }
        } else {
            self
        }
    }

    pub open spec fn spec_should_open(self) -> bool {
        self.failure_count >= self.config.failure_threshold
    }

    pub open spec fn spec_should_close(self) -> bool {
        self.success_count >= self.config.success_threshold && self.failure_count == 0
    }

    pub open spec fn spec_to_open(self, now: i64) -> CircuitBreaker {
        CircuitBreaker { state: CircuitState::Open, last_state_change: now, ..self }
    }

    pub open spec fn spec_to_half_open(self, now: i64) -> CircuitBreaker {
        CircuitBreaker {
            state: CircuitState::HalfOpen,
            last_state_change: now,
            failure_count: 0,
            success_count: 0,
            ..self
        }
    }

    pub open spec fn spec_to_closed(self, now: i64) -> CircuitBreaker {
        CircuitBreaker {
            state: CircuitState::Closed,
            last_state_change: now,
            failure_count: 0,
            success_count: 0,
            ..self
        }
    }

    /// The breaker and verdict after an admission check at time `now`.
    pub open spec fn spec_check_operation(self, now: i64) -> (CircuitBreaker, Result<
        (),
        UniversalNftError,
    >) {
        let cb = self.spec_update_window(now);
        match cb.state {
            CircuitState::Closed => {
                if cb.spec_should_open() {
                    (cb.spec_to_open(now), Err(UniversalNftError::CircuitBreakerOpen))
                } else {
                    (cb, Ok(()))
                }
            },
            CircuitState::HalfOpen => {
                if cb.failure_count + cb.success_count >= cb.config.half_open_limit {
                    (cb, Err(UniversalNftError::CircuitBreakerRateLimit))
                } else if cb.spec_should_close() {
                    (cb.spec_to_closed(now), Ok(()))
                } else if cb.spec_should_open() {
                    (cb.spec_to_open(now), Err(UniversalNftError::CircuitBreakerOpen))
                } else {
                    (cb, Ok(()))
                }
            },
            CircuitState::Open => {
                if now - cb.last_state_change >= cb.config.min_open_duration {
                    (cb.spec_to_half_open(now), Ok(()))
                } else {
                    (cb, Err(UniversalNftError::CircuitBreakerOpen))
                }
            },
            CircuitState::ManualOverride => (cb, Ok(())),
        }
    }

    /// The breaker after a success report at time `now`.
    pub open spec fn spec_record_success(self, now: i64) -> CircuitBreaker {
        if self.state is ManualOverride {
            self
        } else {
            let cb = self.spec_update_window(now);
            let cb = CircuitBreaker { success_count: spec_sat_inc(cb.success_count), ..cb };
            if cb.state is HalfOpen && cb.spec_should_close() {
                cb.spec_to_closed(now)
            } else {
                cb
            }
        }
    }

    /// The breaker after a failure report at time `now`.
    pub open spec fn spec_record_failure(self, now: i64) -> CircuitBreaker {
        if self.state is ManualOverride {
            self
        } else {
            let cb = self.spec_update_window(now);
            let cb = CircuitBreaker { failure_count: spec_sat_inc(cb.failure_count), ..cb };
            if cb.spec_should_open() {
                cb.spec_to_open(now)
            } else {
                cb
            }
        }
    }

    /// Initialize the breaker: closed, counts zeroed, window started now.
    pub fn initialize(
        &mut self,
        authority: [u8; 32],
        config: Option<CircuitConfig>,
        bump: u8,
        now: i64,
    )
        requires
            now >= 0,
        ensures
            *final(self) == (CircuitBreaker {
                state: CircuitState::Closed,
                failure_count: 0,
                success_count: 0,
                window_start: now,
                last_state_change: now,
                config: match config {
                    Some(c) => c,
                    None => spec_default_circuit_config(),
                },
                authority,
                bump,
            }),
            final(self).wf(),
    {
        self.state = CircuitState::Closed;
        self.failure_count = 0;
        self.success_count = 0;
        self.window_start = now;
        self.last_state_change = now;
        self.config = match config {
            Some(c) => c,
            None => CircuitConfig::default(),
        };
        self.authority = authority;
        self.bump = bump;
    }

    /// Check whether an operation may proceed. The check itself may trip the
    /// breaker (closed to open) or begin probing (open to half-open).
    pub fn check_operation_allowed(&mut self, _operation_type: OperationType, now: i64) -> (r:
        Result<(), UniversalNftError>)
        requires
            old(self).wf(),
            now >= old(self).window_start,
            now >= old(self).last_state_change,
        ensures
            *final(self) == old(self).spec_check_operation(now).0,
            r == old(self).spec_check_operation(now).1,
            final(self).wf(),
            final(self).window_start <= now,
            final(self).last_state_change <= now,
    {
        self.update_window(now);
        match self.state {
            CircuitState::Closed => {
                if self.should_open_circuit(now) {
                    self.transition_to_open(now);
                    Err(UniversalNftError::CircuitBreakerOpen)
                } else {
                    Ok(())
                }
            },
            CircuitState::HalfOpen => {
                let total_ops = self.failure_count.saturating_add(self.success_count);
                if total_ops >= self.config.half_open_limit {
                    Err(UniversalNftError::CircuitBreakerRateLimit)
                } else if self.should_close_circuit() {
                    self.transition_to_closed(now);
                    Ok(())
                } else if self.should_open_circuit(now) {
                    self.transition_to_open(now);
                    Err(UniversalNftError::CircuitBreakerOpen)
                } else {
                    Ok(())
                }
            },
            CircuitState::Open => {
                if now - self.last_state_change >= self.config.min_open_duration {
                    self.transition_to_half_open(now);
                    Ok(())
                } else {
                    Err(UniversalNftError::CircuitBreakerOpen)
                }
            },
            CircuitState::ManualOverride => Ok(()),
        }
    }

    /// Record an operation success; from half-open, enough clean successes
    /// close the breaker. Ignored while the authority override is active.
    pub fn record_success(&mut self, now: i64)
        requires
            old(self).wf(),
            now >= old(self).window_start,
            now >= old(self).last_state_change,
        ensures
            *final(self) == old(self).spec_record_success(now),
            final(self).wf(),
            final(self).window_start <= now,
            final(self).last_state_change <= now,
    {
        if matches!(self.state, CircuitState::ManualOverride) {
            return ;
        }
        self.update_window(now);
        self.success_count = self.success_count.saturating_add(1);
        if matches!(self.state, CircuitState::HalfOpen) && self.should_close_circuit() {
            self.transition_to_closed(now);
        }
    }

    /// Record an operation failure; enough failures in one window trip the
    /// breaker. Ignored while the authority override is active.
    pub fn record_failure(&mut self, now: i64)
        requires
            old(self).wf(),
            now >= old(self).window_start,
            now >= old(self).last_state_change,
        ensures
            *final(self) == old(self).spec_record_failure(now),
            final(self).wf(),
            final(self).window_start <= now,
            final(self).last_state_change <= now,
    {
        if matches!(self.state, CircuitState::ManualOverride) {
            return ;
        }
        self.update_window(now);
        self.failure_count = self.failure_count.saturating_add(1);
        if self.should_open_circuit(now) {
            self.transition_to_open(now);
        }
    }

    /// Enable or disable the authority override. Disabling it resets the
    /// breaker to closed with fresh counts.
    pub fn set_manual_override(&mut self, enabled: bool, now: i64)
        requires
            old(self).wf(),
            now >= 0,
        ensures
            enabled ==> *final(self) == (CircuitBreaker {
                state: CircuitState::ManualOverride,
                ..*old(self)
            }),
            !enabled ==> *final(self) == old(self).spec_to_closed(now),
            final(self).wf(),
    {
        if enabled {
            self.state = CircuitState::ManualOverride;
        } else {
            self.transition_to_closed(now);
        }
    }

    // Private helpers, each mirroring one spec-level transition.

    fn update_window(&mut self, now: i64)
        requires
            old(self).wf(),
            now >= old(self).window_start,
        ensures
            *final(self) == old(self).spec_update_window(now),
            final(self).wf(),
    {
        if now - self.window_start >= self.config.failure_window {
            self.window_start = now;
            self.failure_count = 0;
            self.success_count = 0;
        }
    }

    fn should_open_circuit(&self, _now: i64) -> (r: bool)
        ensures
            r == self.spec_should_open(),
    {
        self.failure_count >= self.config.failure_threshold
    }

    fn should_close_circuit(&self) -> (r: bool)
        ensures
            r == self.spec_should_close(),
    {
        self.success_count >= self.config.success_threshold && self.failure_count == 0
    }

    fn transition_to_open(&mut self, now: i64)
        ensures
            *final(self) == old(self).spec_to_open(now),
    {
        self.state = CircuitState::Open;
        self.last_state_change = now;
    }

    fn transition_to_half_open(&mut self, now: i64)
        ensures
            *final(self) == old(self).spec_to_half_open(now),
    {
        self.state = CircuitState::HalfOpen;
        self.last_state_change = now;
        self.failure_count = 0;
        self.success_count = 0;
    }

    fn transition_to_closed(&mut self, now: i64)
        ensures
            *final(self) == old(self).spec_to_closed(now),
    {
        self.state = CircuitState::Closed;
        self.last_state_change = now;
        self.failure_count = 0;
        self.success_count = 0;
    }

    /// Health snapshot of the breaker, a pure function of its state: no
    /// accessor call changes what the next one returns.
    pub open spec fn spec_health_metrics(self, now: i64) -> CircuitHealthMetrics {
        CircuitHealthMetrics {
            state: self.state,
            success_rate_bps: if self.failure_count + self.success_count > 0 {
                ((self.success_count * 10000) / (self.failure_count
                    + self.success_count)) as u64
            } else {
                10000
            },
            total_operations: if self.failure_count + self.success_count > u64::MAX {
                u64::MAX
            } else {
                (self.failure_count + self.success_count) as u64
            },
            failures_in_window: self.failure_count,
            time_in_current_state: (now - self.last_state_change) as i64,
        }
    }

    /// Read the breaker's health: state, success rate, counts, and how long
    /// it has been in the current state.
    pub fn get_health_metrics(&self, now: i64) -> (r: CircuitHealthMetrics)
        requires
            self.wf(),
            now >= self.last_state_change,
        ensures
            r == self.spec_health_metrics(now),
    {
        let total_ops = self.failure_count.saturating_add(self.success_count);
        let success_rate_bps: u64 = if self.failure_count as u128 + self.success_count as u128 > 0 {
            ((self.success_count as u128 * 10000) / (self.failure_count as u128
                + self.success_count as u128)) as u64
        } else {
            10000
        };
        CircuitHealthMetrics {
            state: self.state,
            success_rate_bps,
            total_operations: total_ops,
            failures_in_window: self.failure_count,
            time_in_current_state: now - self.last_state_change,
        }
    }
}

/// Read-only health snapshot consumed by the monitoring layer.
#[derive(Clone, Copy, Debug, PartialEq, Eq, Structural)]
pub struct CircuitHealthMetrics {
    pub state: CircuitState,
    /// Successes per operation in the current window, in basis points.
    pub success_rate_bps: u64,
    pub total_operations: u64,
    pub failures_in_window: u64,
    pub time_in_current_state: i64,
}

/// The breaker after a sequence of failure reports, one per timestamp.
pub open spec fn spec_apply_failures(cb: CircuitBreaker, times: Seq<i64>) -> CircuitBreaker
    decreases times.len(),
{
    if times.len() == 0 {
        cb
    } else {
        spec_apply_failures(cb.spec_record_failure(times[0]), times.drop_first())
    }
}

proof fn lemma_failures_keep_or_reach_open(cb: CircuitBreaker, times: Seq<i64>)
    requires
        forall|i: int|
            0 <= i < times.len() ==> cb.window_start <= #[trigger] times[i] && times[i]
                - cb.window_start < cb.config.failure_window,
        cb.state is Open || (cb.state is Closed && cb.failure_count < cb.config.failure_threshold
            && cb.failure_count + times.len() >= cb.config.failure_threshold),
    ensures
        spec_apply_failures(cb, times).state is Open,
    decreases times.len(),
{
    if times.len() == 0 {
        // With no reports left, the closed case would need
        // failure_count >= failure_threshold, contradicting the bound.
        assert(cb.state is Open);
    } else {
        let cb1 = cb.spec_record_failure(times[0]);
        assert(times[0] - cb.window_start < cb.config.failure_window);
        assert(cb1.window_start == cb.window_start);
        assert forall|i: int| 0 <= i < times.drop_first().len() implies cb1.window_start
            <= #[trigger] times.drop_first()[i] && times.drop_first()[i] - cb1.window_start
            < cb1.config.failure_window by {
            assert(times.drop_first()[i] == times[i + 1]);
        }
        lemma_failures_keep_or_reach_open(cb1, times.drop_first());
    }
}

/// Tripping is certain: from the closed state with a fresh window, reporting
/// at least `failure_threshold` failures whose timestamps all fall inside
/// the failure window always leaves the breaker open.
pub proof fn lemma_failure_threshold_opens(cb: CircuitBreaker, times: Seq<i64>)
    requires
        cb.state is Closed,
        cb.failure_count == 0,
        cb.config.failure_threshold >= 1,
        times.len() >= cb.config.failure_threshold,
        forall|i: int|
            0 <= i < times.len() ==> cb.window_start <= #[trigger] times[i] && times[i]
                - cb.window_start < cb.config.failure_window,
    ensures
        spec_apply_failures(cb, times).state is Open,
{
    lemma_failures_keep_or_reach_open(cb, times);
}

/// An open breaker admits nothing before `min_open_duration` has elapsed,
/// and moves to half-open — admitting the probe — exactly once it has.
pub proof fn lemma_open_duration_gates_half_open(cb: CircuitBreaker, now: i64)
    requires
        cb.state is Open,
    ensures
        now - cb.last_state_change < cb.config.min_open_duration ==> {
            &&& cb.spec_check_operation(now).0.state is Open
            &&& cb.spec_check_operation(now).1 == Err::<(), UniversalNftError>(
                UniversalNftError::CircuitBreakerOpen,
            )
        },
        now - cb.last_state_change >= cb.config.min_open_duration ==> {
            &&& cb.spec_check_operation(now).0.state is HalfOpen
            &&& cb.spec_check_operation(now).1 == Ok::<(), UniversalNftError>(())
        },
{
}

} // verus!
