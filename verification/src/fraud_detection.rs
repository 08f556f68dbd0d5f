//! Behavioural fraud-risk engine: scores each operation as a weighted blend
//! of seven sub-scores, keeps a bounded ring of recent operation
//! fingerprints, and detects suspicious patterns across that ring.

use vstd::prelude::*;

use crate::arith::{spec_capped, spec_sat_add_u64};

verus! {

/// Number of slots in the ring of recent operation fingerprints.
pub const RING_CAPACITY: usize = 20;

/// Operation kinds the engine scores.
#[derive(Clone, Copy, Debug, PartialEq, Eq, Structural)]
pub enum OperationType {
    CrossChainTransfer,
    LocalTransfer,
    Mint,
    Burn,
}

/// The compact tag an operation kind is stored under in a fingerprint.
pub open spec fn spec_op_type_tag(operation_type: OperationType) -> u8 {
    match operation_type {
        OperationType::CrossChainTransfer => 1,
        OperationType::LocalTransfer => 2,
        OperationType::Mint => 3,
        OperationType::Burn => 4,
    }
}

pub(crate) fn op_type_tag(operation_type: OperationType) -> (r: u8)
    ensures
        r == spec_op_type_tag(operation_type),
{
    match operation_type {
        OperationType::CrossChainTransfer => 1,
        OperationType::LocalTransfer => 2,
        OperationType::Mint => 3,
        OperationType::Burn => 4,
    }
}

/// Tunable thresholds of the engine.
#[derive(Clone, Copy, Debug, PartialEq, Eq, Structural)]
pub struct FraudConfig {
    /// Risk score above which an operation counts as suspicious.
    pub risk_threshold: u16,
    /// Time window for pattern analysis, in seconds.
    pub analysis_window: i64,
    /// Operations per minute above which velocity is penalised.
    pub velocity_threshold: u16,
    /// Minimum reputation that avoids a reputation penalty.
    pub min_reputation: u16,
    /// Risk multiplier for high-risk regions.
    pub geo_risk_multiplier: u16,
}

pub open spec fn spec_default_fraud_config() -> FraudConfig {
    FraudConfig {
        risk_threshold: 750,
        analysis_window: 3600,
        velocity_threshold: 10,
        min_reputation: 500,
        geo_risk_multiplier: 150,
    }
}

impl Default for FraudConfig {
    fn default() -> (r: Self)
        ensures
            r == spec_default_fraud_config(),
    {
        FraudConfig {
            risk_threshold: 750,
            analysis_window: 3600,
            velocity_threshold: 10,
            min_reputation: 500,
            geo_risk_multiplier: 150,
        }
    }
}

/// A compact fingerprint of one analysed operation.
#[derive(Clone, Copy, Debug, PartialEq, Eq, Structural)]
pub struct OperationSignature {
    /// Operation kind tag.
    pub op_type: u8,
    /// When the operation was analysed; zero marks an empty slot.
    pub timestamp: i64,
    /// Source chain id.
    pub source_chain: u64,
    /// Destination chain id.
    pub destination_chain: u64,
    /// Hash of the transferred value, for value-pattern detection.
    pub value_hash: u32,
    /// Hash of the user address, for per-user pattern detection.
    pub user_hash: u32,
    /// Risk score assigned to this operation.
    pub risk_score: u16,
}

pub open spec fn spec_empty_signature() -> OperationSignature {
    OperationSignature {
        op_type: 0,
        timestamp: 0,
        source_chain: 0,
        destination_chain: 0,
        value_hash: 0,
        user_hash: 0,
        risk_score: 0,
    }
}

impl Default for OperationSignature {
    fn default() -> (r: Self)
        ensures
            r == spec_empty_signature(),
    {
        OperationSignature {
            op_type: 0,
            timestamp: 0,
            source_chain: 0,
            destination_chain: 0,
            value_hash: 0,
            user_hash: 0,
            risk_score: 0,
        }
    }
}

/// One operation submitted for analysis.
pub struct OperationAnalysisInput {
    pub operation_type: OperationType,
    pub source_chain_id: u64,
    pub destination_chain_id: u64,
    pub value: u64,
    pub user_address: Vec<u8>,
    pub user_reputation: Option<u16>,
    pub route_hops: Option<u8>,
}

/// The engine's verdict on one operation.
#[derive(Clone, Copy, Debug, PartialEq, Eq, Structural)]
pub struct FraudAnalysisResult {
    /// Instantaneous risk score of this operation, 0 to 1000.
    pub risk_score: u16,
    /// Whether the score exceeds the configured risk threshold.
    pub is_suspicious: bool,
    /// How many ring-wide patterns were detected.
    pub detected_patterns: u16,
    /// Policy recommendation derived from the score.
    pub recommendation: FraudRecommendation,
    /// Confidence in the verdict, 0 to 100.
    pub confidence: u8,
}

/// Policy signal attached to a scored operation; only `Block` prevents
/// execution.
#[derive(Clone, Copy, Debug, PartialEq, Eq, Structural)]
pub enum FraudRecommendation {
    Allow,
    Monitor,
    RequireAdditionalVerification,
    Delay,
    Block,
}

/// How many fingerprints of `ops` satisfy `pred`.
pub open spec fn spec_count_matching(
    ops: Seq<OperationSignature>,
    pred: spec_fn(OperationSignature) -> bool,
) -> nat
    decreases ops.len(),
{
    if ops.len() == 0 {
        0
    } else {
        spec_count_matching(ops.drop_last(), pred) + (if pred(ops.last()) {
            1nat
        } else {
            0nat
        })
    }
}

/// A fingerprint of a real operation (non-empty slot) from the last minute.
pub open spec fn spec_recent_pred(now: i64) -> spec_fn(OperationSignature) -> bool {
    |op: OperationSignature| op.timestamp > now - 60 && op.timestamp > 0
}

/// How many operations of the ring ran in the last minute.
pub open spec fn spec_velocity_count(ops: Seq<OperationSignature>, now: i64) -> nat {
    spec_count_matching(ops, spec_recent_pred(now))
}

/// Velocity sub-score: 50 per operation above the threshold, capped at 500.
pub open spec fn spec_velocity_risk(ops: Seq<OperationSignature>, config: FraudConfig, now: i64) -> u16 {
    let count = spec_velocity_count(ops, now);
    if count > config.velocity_threshold {
        spec_capped((count - config.velocity_threshold) * 50, 500) as u16
    } else {
        0
    }
}

/// Chain ids on the denylist of known attack endpoints.
pub open spec fn spec_high_risk_chain(chain_id: u64) -> bool {
    chain_id == 99999 || chain_id == 88888 || chain_id == 77777
}

/// Penalty for the chain combination itself: small for known-good routes,
/// 100 for unrecognised ones.
pub open spec fn spec_combination_risk(source: u64, destination: u64) -> u16 {
    if (source == 900 && destination == 1) || (source == 1 && destination == 900) {
        50
    } else if (source == 900 && destination == 56) || (source == 56 && destination == 900) {
        50
    } else if (source == 900 && destination == 7000) || (source == 7000 && destination == 900) {
        30
    } else {
        100
    }
}

/// Chain-pair sub-score: 200 per denylisted endpoint plus the combination
/// penalty, capped at 500.
pub open spec fn spec_chain_pair_risk(source: u64, destination: u64) -> u16 {
    spec_capped(
        (if spec_high_risk_chain(source) {
            200int
        } else {
            0int
        }) + (if spec_high_risk_chain(destination) {
            200int
        } else {
            0int
        }) + spec_combination_risk(source, destination),
        500,
    ) as u16
}

/// Value-pattern sub-score: penalties for round numbers, extreme amounts
/// and a small denylist of exact amounts, capped at 300.
pub open spec fn spec_value_pattern_risk(value: u64) -> u16 {
    spec_capped(
        (if value % 1000000 == 0 && value > 0 {
            100int
        } else {
            0int
        }) + (if value > 1000000000000 {
            200int
        } else {
            0int
        }) + (if value == 1337 || value == 69420 {
            150int
        } else {
            0int
        }),
        300,
    ) as u16
}

pub open spec fn spec_hour_of_day(timestamp: i64) -> int {
    (timestamp % 86400) / 3600
}

/// Temporal sub-score: highest between 02:00 and 05:59 UTC, moderate at the
/// boundary hours around it, zero otherwise.
pub open spec fn spec_temporal_risk(timestamp: i64) -> u16 {
    let hour = spec_hour_of_day(timestamp);
    if 2 <= hour <= 5 {
        100
    } else if hour == 6 || hour == 7 || hour == 23 || hour == 0 || hour == 1 {
        50
    } else {
        0
    }
}

/// Fingerprint hash of a transferred value: its two 32-bit halves, XORed.
pub open spec fn spec_hash_value(value: u64) -> u32 {
    ((value >> 32) as u32) ^ (value as u32)
}

/// Fingerprint hash of a user address: its first four bytes, as a
/// little-endian word.
pub open spec fn spec_hash_address(address: Seq<u8>) -> u32 {
    (if address.len() > 0 {
        address[0] as u32
    } else {
        0u32
    }) ^ (if address.len() > 1 {
        (address[1] as u32) << 8
    } else {
        0u32
    }) ^ (if address.len() > 2 {
        (address[2] as u32) << 16
    } else {
        0u32
    }) ^ (if address.len() > 3 {
        (address[3] as u32) << 24
    } else {
        0u32
    })
}

/// A non-empty fingerprint left by the given user.
pub open spec fn spec_user_pred(user_hash: u32) -> spec_fn(OperationSignature) -> bool {
    |op: OperationSignature| op.user_hash == user_hash && op.timestamp > 0
}

/// User-behaviour sub-score: 50 per ring entry of the same user beyond five.
pub open spec fn spec_user_behavior_risk(ops: Seq<OperationSignature>, address: Seq<u8>) -> u16 {
    let count = spec_count_matching(ops, spec_user_pred(spec_hash_address(address)));
    if count > 5 {
        ((count - 5) * 50) as u16
    } else {
        0
    }
}

/// Route-complexity sub-score: stepped by the number of hops.
pub open spec fn spec_route_risk(route_hops: Option<u8>) -> u16 {
    let hops = match route_hops {
        Some(h) => h,
        None => 1,
    };
    if hops <= 1 {
        0
    } else if hops == 2 {
        50
    } else if hops == 3 {
        150
    } else {
        300
    }
}

/// Reputation sub-score: the shortfall below the configured minimum, capped
/// at 400; a flat 200 when the reputation is unknown.
pub open spec fn spec_reputation_risk(config: FraudConfig, reputation: Option<u16>) -> u16 {
    match reputation {
        Some(rep) => if rep >= config.min_reputation {
            0
        } else {
            spec_capped((config.min_reputation - rep) as int, 400) as u16
        },
        None => 200,
    }
}

/// Weighted blend of the seven sub-scores; the weights sum to 100.
pub open spec fn spec_weighted_risk(
    velocity: u16,
    chain_pair: u16,
    value_pattern: u16,
    temporal: u16,
    behavior: u16,
    route: u16,
    reputation: u16,
) -> u16 {
    ((velocity * 25 + chain_pair * 20 + value_pattern * 15 + temporal * 10 + behavior * 15 + route
        * 10 + reputation * 5) / 100) as u16
}

/// The instantaneous risk score of one operation against a ring of recent
/// fingerprints: the weighted blend, capped at 1000.
pub open spec fn spec_operation_risk(
    config: FraudConfig,
    ops: Seq<OperationSignature>,
    operation: OperationAnalysisInput,
    now: i64,
) -> u16 {
    spec_capped(
        spec_weighted_risk(
            spec_velocity_risk(ops, config, now),
            spec_chain_pair_risk(operation.source_chain_id, operation.destination_chain_id),
            spec_value_pattern_risk(operation.value),
            spec_temporal_risk(now),
            spec_user_behavior_risk(ops, operation.user_address@),
            spec_route_risk(operation.route_hops),
            spec_reputation_risk(config, operation.user_reputation),
        ) as int,
        1000,
    ) as u16
}

/// Rapid fire: ten or more operations inside one minute.
pub open spec fn spec_rapid_fire(ops: Seq<OperationSignature>, now: i64) -> bool {
    spec_velocity_count(ops, now) >= 10
}

/// A circular route at slot `i`: three consecutive non-empty fingerprints of
/// one user whose third transfer reverses the first.
pub open spec fn spec_circular_at(ops: Seq<OperationSignature>, i: int) -> bool {
    let op1 = ops[i];
    let op2 = ops[i + 1];
    let op3 = ops[i + 2];
    &&& op1.timestamp > 0
    &&& op2.timestamp > 0
    &&& op3.timestamp > 0
    &&& op1.source_chain == op3.destination_chain
    &&& op1.destination_chain == op3.source_chain
    &&& op1.user_hash == op2.user_hash
    &&& op2.user_hash == op3.user_hash
}

pub open spec fn spec_circular_pattern(ops: Seq<OperationSignature>) -> bool {
    exists|i: int| 0 <= i < 18 && #[trigger] spec_circular_at(ops, i)
}

/// A non-empty fingerprint with the given value hash.
pub open spec fn spec_value_hash_pred(value_hash: u32) -> spec_fn(OperationSignature) -> bool {
    |op: OperationSignature| op.timestamp > 0 && op.value_hash == value_hash
}

/// Value splitting: five or more non-empty fingerprints share a value hash.
pub open spec fn spec_value_splitting(ops: Seq<OperationSignature>) -> bool {
    exists|i: int|
        0 <= i < ops.len() && (#[trigger] ops[i]).timestamp > 0 && spec_count_matching(
            ops,
            spec_value_hash_pred(ops[i].value_hash),
        ) >= 5
}

/// A chain switch between adjacent slots: the destination of one operation
/// is not the source of the next.
pub open spec fn spec_switch_at(ops: Seq<OperationSignature>, i: int) -> bool {
    ops[i].timestamp > 0 && ops[i + 1].timestamp > 0 && ops[i].destination_chain != ops[i
        + 1].source_chain
}

pub open spec fn spec_count_switches(ops: Seq<OperationSignature>, k: int) -> nat
    decreases k,
{
    if k <= 0 {
        0
    } else {
        spec_count_switches(ops, k - 1) + (if spec_switch_at(ops, k - 1) {
            1nat
        } else {
            0nat
        })
    }
}

/// Chain hopping: five or more switches between adjacent slots.
pub open spec fn spec_chain_hopping(ops: Seq<OperationSignature>) -> bool {
    spec_count_switches(ops, ops.len() - 1) >= 5
}

/// How many of the four ring-wide patterns hold.
pub open spec fn spec_detected_patterns(ops: Seq<OperationSignature>, now: i64) -> u16 {
    ((if spec_rapid_fire(ops, now) {
        1int
    } else {
        0int
    }) + (if spec_circular_pattern(ops) {
        1int
    } else {
        0int
    }) + (if spec_value_splitting(ops) {
        1int
    } else {
        0int
    }) + (if spec_chain_hopping(ops) {
        1int
    } else {
        0int
    })) as u16
}

/// Exponential moving average of the engine's persistent risk score: 30%
/// weight to the newest sample.
pub open spec fn spec_ema(old_score: u16, new_risk: u16) -> u16 {
    ((old_score * 70 + new_risk * 30) / 100) as u16
}

/// Recommendation as a step function of the instantaneous risk score.
pub open spec fn spec_recommendation(risk_score: u16) -> FraudRecommendation {
    if risk_score <= 200 {
        FraudRecommendation::Allow
    } else if risk_score <= 500 {
        FraudRecommendation::Monitor
    } else if risk_score <= 750 {
        FraudRecommendation::RequireAdditionalVerification
    } else if risk_score <= 900 {
        FraudRecommendation::Delay
    } else {
        FraudRecommendation::Block
    }
}

/// Confidence grows with operations analysed and patterns detected, capped
/// at 100.
pub open spec fn spec_confidence(total_operations: u64, suspicious_patterns: u64) -> u8 {
    spec_capped(
        spec_capped(total_operations as int, 100) * 80 / 100 + spec_capped(
            suspicious_patterns as int,
            10,
        ) * 20 / 10,
        100,
    ) as u8
}

/// The fingerprint recorded for one analysed operation.
pub open spec fn spec_new_signature(operation: OperationAnalysisInput, now: i64) -> OperationSignature {
    OperationSignature {
        op_type: spec_op_type_tag(operation.operation_type),
        timestamp: now,
        source_chain: operation.source_chain_id,
        destination_chain: operation.destination_chain_id,
        value_hash: spec_hash_value(operation.value),
        user_hash: spec_hash_address(operation.user_address@),
        risk_score: 0,
    }
}

/// The fraud-detection engine: a persistent EMA risk score, counters, and
/// the ring of recent operation fingerprints.
pub struct FraudDetectionEngine {
    /// Persistent risk score, 0 to 1000, updated by EMA.
    pub risk_score: u16,
    /// Total suspicious patterns detected so far.
    pub suspicious_patterns: u64,
    /// Total operations analysed so far.
    pub total_operations: u64,
    /// When the engine last analysed an operation.
    pub last_analysis: i64,
    /// Configuration parameters.
    pub config: FraudConfig,
    /// Authority for manual overrides.
    pub authority: [u8; 32],
    /// Ring of recent operation fingerprints; the oldest entry is
    /// overwritten first.
    pub recent_operations: Vec<OperationSignature>,
    /// Next slot of the ring to overwrite.
    pub operation_index: u8,
    /// Derivation bump seed.
    pub bump: u8,
}

impl FraudDetectionEngine {
    /// The ring always holds exactly `RING_CAPACITY` slots, the write
    /// cursor stays inside it, and the EMA score stays within 0 to 1000.
    pub open spec fn wf(self) -> bool {
        &&& self.recent_operations@.len() == RING_CAPACITY
        &&& self.operation_index < RING_CAPACITY
        &&& self.risk_score <= 1000
    }

    /// The ring after recording a fingerprint for `operation` at `now`.
    pub open spec fn spec_ops_after_insert(self, operation: OperationAnalysisInput, now: i64) -> Seq<
        OperationSignature,
    > {
        self.recent_operations@.update(
            self.operation_index as int,
            spec_new_signature(operation, now),
        )
    }

    /// The instantaneous risk score `analyze_operation` assigns, computed on
    /// the ring that already holds the new fingerprint.
    pub open spec fn spec_analysis_risk(self, operation: OperationAnalysisInput, now: i64) -> u16 {
        spec_operation_risk(self.config, self.spec_ops_after_insert(operation, now), operation, now)
    }

    /// Initialize the engine: clean score and counters, an empty ring.
    pub fn initialize(&mut self, authority: [u8; 32], config: Option<FraudConfig>, bump: u8, now: i64)
        ensures
            final(self).risk_score == 0,
            final(self).suspicious_patterns == 0,
            final(self).total_operations == 0,
            final(self).last_analysis == now,
            final(self).config == match config {
                Some(c) => c,
                None => spec_default_fraud_config(),
            },
            final(self).authority == authority,
            final(self).recent_operations@ == Seq::new(
                RING_CAPACITY as nat,
                |i: int| spec_empty_signature(),
            ),
            final(self).operation_index == 0,
            final(self).bump == bump,
            final(self).wf(),
    {
        self.risk_score = 0;
        self.suspicious_patterns = 0;
        self.total_operations = 0;
        self.last_analysis = now;
        self.config = match config {
            Some(c) => c,
            None => FraudConfig::default(),
        };
        self.authority = authority;
        let mut ring: Vec<OperationSignature> = Vec::new();
        let mut i: usize = 0;
        while i < RING_CAPACITY
            invariant
                i <= RING_CAPACITY,
                ring@.len() == i,
                forall|j: int| 0 <= j < i ==> ring@[j] == spec_empty_signature(),
            decreases RING_CAPACITY - i,
        {
            ring.push(OperationSignature::default());
            i += 1;
        }
        proof {
            assert(ring@ =~= Seq::new(RING_CAPACITY as nat, |j: int| spec_empty_signature()));
        }
        self.recent_operations = ring;
        self.operation_index = 0;
        self.bump = bump;
    }

    /// Analyse one operation: record its fingerprint in the ring, compute
    /// its risk score, update the persistent EMA score and the pattern
    /// counters, and return the verdict.
    pub fn analyze_operation(&mut self, operation: &OperationAnalysisInput, now: i64) -> (r:
        FraudAnalysisResult)
        requires
            old(self).wf(),
            now >= 0,
        ensures
            final(self).wf(),
            final(self).recent_operations@ == old(self).spec_ops_after_insert(*operation, now),
            final(self).operation_index == ((old(self).operation_index + 1) % (
            RING_CAPACITY as int)) as u8,
            final(self).total_operations == spec_sat_add_u64(old(self).total_operations, 1),
            final(self).risk_score == spec_ema(
                old(self).risk_score,
                old(self).spec_analysis_risk(*operation, now),
            ),
            final(self).suspicious_patterns == spec_sat_add_u64(
                old(self).suspicious_patterns,
                spec_detected_patterns(
                    old(self).spec_ops_after_insert(*operation, now),
                    now,
                ) as u64,
            ),
            final(self).last_analysis == now,
            final(self).config == old(self).config,
            final(self).authority == old(self).authority,
            final(self).bump == old(self).bump,
            r.risk_score == old(self).spec_analysis_risk(*operation, now),
            r.is_suspicious == (old(self).spec_analysis_risk(*operation, now) > old(
                self,
            ).config.risk_threshold),
            r.detected_patterns == spec_detected_patterns(
                old(self).spec_ops_after_insert(*operation, now),
                now,
            ),
            r.recommendation == spec_recommendation(old(self).spec_analysis_risk(*operation, now)),
            r.confidence == spec_confidence(
                spec_sat_add_u64(old(self).total_operations, 1),
                spec_sat_add_u64(
                    old(self).suspicious_patterns,
                    spec_detected_patterns(
                        old(self).spec_ops_after_insert(*operation, now),
                        now,
                    ) as u64,
                ),
            ),
    {
        let signature = OperationSignature {
            op_type: op_type_tag(operation.operation_type),
            timestamp: now,
            source_chain: operation.source_chain_id,
            destination_chain: operation.destination_chain_id,
            value_hash: self.hash_value(operation.value),
            user_hash: self.hash_address(operation.user_address.as_slice()),
            risk_score: 0,
        };
        self.recent_operations.set(self.operation_index as usize, signature);
        self.operation_index = (self.operation_index + 1) % (RING_CAPACITY as u8);
        self.total_operations = self.total_operations.saturating_add(1);

        let risk_score = self.calculate_comprehensive_risk_score(operation, now);
        self.risk_score = self.update_risk_score(risk_score);

        let suspicious_patterns = self.detect_patterns(now);
        self.suspicious_patterns = self.suspicious_patterns.saturating_add(
            suspicious_patterns as u64,
        );

        let result = FraudAnalysisResult {
            risk_score,
            is_suspicious: risk_score > self.config.risk_threshold,
            detected_patterns: suspicious_patterns,
            recommendation: self.get_recommendation(risk_score),
            confidence: self.calculate_confidence(),
        };
        self.last_analysis = now;
        result
    }

    /// Blend the seven sub-scores of one operation into its risk score.
    pub fn calculate_comprehensive_risk_score(
        &self,
        operation: &OperationAnalysisInput,
        now: i64,
    ) -> (r: u16)
        requires
            self.wf(),
            now >= 0,
        ensures
            r == spec_operation_risk(self.config, self.recent_operations@, *operation, now),
            r <= 1000,
    {
        let velocity_risk = self.analyze_velocity(now);
        let chain_risk = self.analyze_chain_pair_risk(
            operation.source_chain_id,
            operation.destination_chain_id,
        );
        let value_risk = self.analyze_value_patterns(operation.value);
        let temporal_risk = self.analyze_temporal_patterns(now);
        let behavior_risk = self.analyze_user_behavior(operation.user_address.as_slice(), now);
        let route_risk = self.analyze_route_risk(operation);
        let reputation_risk = self.calculate_reputation_risk(operation.user_reputation);

        let total = self.calculate_weighted_risk(
            velocity_risk,
            chain_risk,
            value_risk,
            temporal_risk,
            behavior_risk,
            route_risk,
            reputation_risk,
        );
        if total > 1000 {
            1000
        } else {
            total
        }
    }

    /// Count the ring's operations of the last minute and penalise counts
    /// above the velocity threshold.
    pub fn analyze_velocity(&self, now: i64) -> (r: u16)
        requires
            self.wf(),
            now >= 0,
        ensures
            r == spec_velocity_risk(self.recent_operations@, self.config, now),
    {
        let count = self.count_recent_operations(now);
        if count > self.config.velocity_threshold {
            let risk = (count - self.config.velocity_threshold) * 50;
            if risk > 500 {
                500
            } else {
                risk
            }
        } else {
            0
        }
    }

    /// How many non-empty fingerprints of the ring are from the last minute.
    fn count_recent_operations(&self, now: i64) -> (r: u16)
        requires
            self.wf(),
            now >= 0,
        ensures
            r == spec_velocity_count(self.recent_operations@, now),
            r <= RING_CAPACITY,
    {
        let ghost ops = self.recent_operations@;
        let ghost pred = spec_recent_pred(now);
        let mut count: u16 = 0;
        let mut i: usize = 0;
        while i < self.recent_operations.len()
            invariant
                self.wf(),
                now >= 0,
                i <= ops.len(),
                ops == self.recent_operations@,
                pred == spec_recent_pred(now),
                count == spec_count_matching(ops.take(i as int), pred),
                count <= i,
            decreases ops.len() - i,
        {
            let op = self.recent_operations[i];
            proof {
                assert(ops.take(i as int + 1).drop_last() =~= ops.take(i as int));
                assert(ops.take(i as int + 1).last() == ops[i as int]);
            }
            if op.timestamp > now - 60 && op.timestamp > 0 {
                count += 1;
            }
            i += 1;
        }
        proof {
            assert(ops.take(ops.len() as int) =~= ops);
        }
        count
    }

    /// Penalise denylisted endpoints and unrecognised chain combinations.
    pub fn analyze_chain_pair_risk(&self, source: u64, destination: u64) -> (r: u16)
        ensures
            r == spec_chain_pair_risk(source, destination),
    {
        let source_risk: u16 = if source == 99999 || source == 88888 || source == 77777 {
            200
        } else {
            0
        };
        let dest_risk: u16 = if destination == 99999 || destination == 88888 || destination
            == 77777 {
            200
        } else {
            0
        };
        let combination_risk: u16 = if (source == 900 && destination == 1) || (source == 1
            && destination == 900) {
            50
        } else if (source == 900 && destination == 56) || (source == 56 && destination == 900) {
            50
        } else if (source == 900 && destination == 7000) || (source == 7000 && destination == 900) {
            30
        } else {
            100
        };
        let total = source_risk + dest_risk + combination_risk;
        if total > 500 {
            500
        } else {
            total
        }
    }

    /// Penalise round-number, extreme and denylisted exact amounts. A
    /// round-number amount always contributes at least 100.
    pub fn analyze_value_patterns(&self, value: u64) -> (r: u16)
        ensures
            r == spec_value_pattern_risk(value),
            value % 1000000 == 0 && value > 0 ==> r >= 100,
    {
        let round_number_risk: u16 = if value % 1000000 == 0 && value > 0 {
            100
        } else {
            0
        };
        let high_value_risk: u16 = if value > 1000000000000 {
            200
        } else {
            0
        };
        let exact_amount_risk: u16 = if value == 1337 || value == 69420 {
            150
        } else {
            0
        };
        let total = round_number_risk + high_value_risk + exact_amount_risk;
        if total > 300 {
            300
        } else {
            total
        }
    }

    /// Penalise the small hours: highest risk between 02:00 and 05:59 UTC.
    pub fn analyze_temporal_patterns(&self, timestamp: i64) -> (r: u16)
        requires
            timestamp >= 0,
        ensures
            r == spec_temporal_risk(timestamp),
    {
        let hour = (timestamp % 86400) / 3600;
        if 2 <= hour && hour <= 5 {
            100
        } else if hour == 6 || hour == 7 || hour == 23 || hour == 0 || hour == 1 {
            50
        } else {
            0
        }
    }

    /// Penalise users with more than five fingerprints in the ring.
    pub fn analyze_user_behavior(&self, user_address: &[u8], _now: i64) -> (r: u16)
        requires
            self.wf(),
        ensures
            r == spec_user_behavior_risk(self.recent_operations@, user_address@),
    {
        let user_hash = self.hash_address(user_address);
        let ghost ops = self.recent_operations@;
        let ghost pred = spec_user_pred(user_hash);
        let mut count: u16 = 0;
        let mut i: usize = 0;
        while i < self.recent_operations.len()
            invariant
                self.wf(),
                i <= ops.len(),
                ops == self.recent_operations@,
                pred == spec_user_pred(user_hash),
                count == spec_count_matching(ops.take(i as int), pred),
                count <= i,
            decreases ops.len() - i,
        {
            let op = self.recent_operations[i];
            proof {
                assert(ops.take(i as int + 1).drop_last() =~= ops.take(i as int));
                assert(ops.take(i as int + 1).last() == ops[i as int]);
            }
            if op.user_hash == user_hash && op.timestamp > 0 {
                count += 1;
            }
            i += 1;
        }
        proof {
            assert(ops.take(ops.len() as int) =~= ops);
        }
        if count > 5 {
            (count - 5) * 50
        } else {
            0
        }
    }

    /// Penalise complex routes by their number of hops.
    pub fn analyze_route_risk(&self, operation: &OperationAnalysisInput) -> (r: u16)
        ensures
            r == spec_route_risk(operation.route_hops),
    {
        let route_complexity = match operation.route_hops {
            Some(h) => h,
            None => 1,
        };
        if route_complexity <= 1 {
            0
        } else if route_complexity == 2 {
            50
        } else if route_complexity == 3 {
            150
        } else {
            300
        }
    }

    /// Penalise reputations below the configured minimum.
    pub fn calculate_reputation_risk(&self, reputation: Option<u16>) -> (r: u16)
        ensures
            r == spec_reputation_risk(self.config, reputation),
    {
        match reputation {
            Some(rep) => {
                if rep >= self.config.min_reputation {
                    0
                } else {
                    let shortfall = self.config.min_reputation - rep;
                    if shortfall > 400 {
                        400
                    } else {
                        shortfall
                    }
                }
            },
            None => 200,
        }
    }

    /// Blend the sub-scores by their fixed percentage weights.
    pub fn calculate_weighted_risk(
        &self,
        velocity: u16,
        chain_pair: u16,
        value_pattern: u16,
        temporal: u16,
        behavior: u16,
        route: u16,
        reputation: u16,
    ) -> (r: u16)
        ensures
            r == spec_weighted_risk(
                velocity,
                chain_pair,
                value_pattern,
                temporal,
                behavior,
                route,
                reputation,
            ),
    {
        let weighted_sum: u32 = (velocity as u32) * 25 + (chain_pair as u32) * 20 + (
        value_pattern as u32) * 15 + (temporal as u32) * 10 + (behavior as u32) * 15 + (
        route as u32) * 10 + (reputation as u32) * 5;
        (weighted_sum / 100) as u16
    }

    /// How many of the four ring-wide patterns currently hold.
    pub fn detect_patterns(&self, now: i64) -> (r: u16)
        requires
            self.wf(),
            now >= 0,
        ensures
            r == spec_detected_patterns(self.recent_operations@, now),
    {
        let mut patterns: u16 = 0;
        if self.detect_rapid_fire_pattern(now) {
            patterns += 1;
        }
        if self.detect_circular_pattern() {
            patterns += 1;
        }
        if self.detect_value_manipulation_pattern() {
            patterns += 1;
        }
        if self.detect_chain_hopping_pattern() {
            patterns += 1;
        }
        patterns
    }

    /// Ten or more operations inside one minute.
    pub fn detect_rapid_fire_pattern(&self, now: i64) -> (r: bool)
        requires
            self.wf(),
            now >= 0,
        ensures
            r == spec_rapid_fire(self.recent_operations@, now),
    {
        let count = self.count_recent_operations(now);
        count >= 10
    }

    /// A chain A to B to A round trip by one user within three slots.
    pub fn detect_circular_pattern(&self) -> (r: bool)
        requires
            self.wf(),
        ensures
            r == spec_circular_pattern(self.recent_operations@),
    {
        let ghost ops = self.recent_operations@;
        let mut i: usize = 0;
        while i < 18
            invariant
                self.wf(),
                i <= 18,
                ops == self.recent_operations@,
                forall|j: int| 0 <= j < i ==> !spec_circular_at(ops, j),
            decreases 18 - i,
        {
            let op1 = self.recent_operations[i];
            let op2 = self.recent_operations[i + 1];
            let op3 = self.recent_operations[i + 2];
            if op1.timestamp > 0 && op2.timestamp > 0 && op3.timestamp > 0 && op1.source_chain
                == op3.destination_chain && op1.destination_chain == op3.source_chain
                && op1.user_hash == op2.user_hash && op2.user_hash == op3.user_hash {
                proof {
                    assert(spec_circular_at(ops, i as int));
                }
                return true;
            }
            i += 1;
        }
        false
    }

    /// Five or more non-empty fingerprints sharing one value hash.
    pub fn detect_value_manipulation_pattern(&self) -> (r: bool)
        requires
            self.wf(),
        ensures
            r == spec_value_splitting(self.recent_operations@),
    {
        let ghost ops = self.recent_operations@;
        let mut i: usize = 0;
        while i < self.recent_operations.len()
            invariant
                self.wf(),
                i <= ops.len(),
                ops == self.recent_operations@,
                forall|j: int|
                    0 <= j < i ==> !((#[trigger] ops[j]).timestamp > 0 && spec_count_matching(
                        ops,
                        spec_value_hash_pred(ops[j].value_hash),
                    ) >= 5),
            decreases ops.len() - i,
        {
            let probe = self.recent_operations[i];
            if probe.timestamp > 0 {
                let value_hash = probe.value_hash;
                let ghost pred = spec_value_hash_pred(value_hash);
                let mut count: u16 = 0;
                let mut k: usize = 0;
                while k < self.recent_operations.len()
                    invariant
                        self.wf(),
                        k <= ops.len(),
                        ops == self.recent_operations@,
                        pred == spec_value_hash_pred(value_hash),
                        count == spec_count_matching(ops.take(k as int), pred),
                        count <= k,
                    decreases ops.len() - k,
                {
                    let op = self.recent_operations[k];
                    proof {
                        assert(ops.take(k as int + 1).drop_last() =~= ops.take(k as int));
                        assert(ops.take(k as int + 1).last() == ops[k as int]);
                    }
                    if op.timestamp > 0 && op.value_hash == value_hash {
                        count += 1;
                    }
                    k += 1;
                }
                proof {
                    assert(ops.take(ops.len() as int) =~= ops);
                }
                if count >= 5 {
                    proof {
                        assert(ops[i as int].timestamp > 0 && spec_count_matching(
                            ops,
                            spec_value_hash_pred(ops[i as int].value_hash),
                        ) >= 5);
                    }
                    return true;
                }
            }
            i += 1;
        }
        false
    }

    /// Five or more adjacent slots whose chains do not connect.
    pub fn detect_chain_hopping_pattern(&self) -> (r: bool)
        requires
            self.wf(),
        ensures
            r == spec_chain_hopping(self.recent_operations@),
    {
        let ghost ops = self.recent_operations@;
        let mut switches: u16 = 0;
        let mut i: usize = 0;
        while i + 1 < self.recent_operations.len()
            invariant
                self.wf(),
                i <= ops.len() - 1,
                ops == self.recent_operations@,
                switches == spec_count_switches(ops, i as int),
                switches <= i,
            decreases ops.len() - i,
        {
            let op1 = self.recent_operations[i];
            let op2 = self.recent_operations[i + 1];
            if op1.timestamp > 0 && op2.timestamp > 0 && op1.destination_chain != op2.source_chain {
                switches += 1;
            }
            i += 1;
        }
        switches >= 5
    }

    /// Fingerprint hash of a transferred value.
    pub fn hash_value(&self, value: u64) -> (r: u32)
        ensures
            r == spec_hash_value(value),
    {
        (#[verifier::truncate] ((value >> 32) as u32)) ^ (#[verifier::truncate] (value as u32))
    }

    /// Fingerprint hash of a user address: its first four bytes.
    pub fn hash_address(&self, address: &[u8]) -> (r: u32)
        ensures
            r == spec_hash_address(address@),
    {
        let byte0: u32 = if address.len() > 0 {
            address[0] as u32
        } else {
            0
        };
        let byte1: u32 = if address.len() > 1 {
            (address[1] as u32) << 8u32
        } else {
            0
        };
        let byte2: u32 = if address.len() > 2 {
            (address[2] as u32) << 16u32
        } else {
            0
        };
        let byte3: u32 = if address.len() > 3 {
            (address[3] as u32) << 24u32
        } else {
            0
        };
        byte0 ^ byte1 ^ byte2 ^ byte3
    }

    /// Fold one sample into the persistent EMA risk score.
    pub fn update_risk_score(&self, new_risk: u16) -> (r: u16)
        ensures
            r == spec_ema(self.risk_score, new_risk),
    {
        (((self.risk_score as u32) * 70 + (new_risk as u32) * 30) / 100) as u16
    }

    /// The policy recommendation for an instantaneous risk score.
    pub fn get_recommendation(&self, risk_score: u16) -> (r: FraudRecommendation)
        ensures
            r == spec_recommendation(risk_score),
    {
        if risk_score <= 200 {
            FraudRecommendation::Allow
        } else if risk_score <= 500 {
            FraudRecommendation::Monitor
        } else if risk_score <= 750 {
            FraudRecommendation::RequireAdditionalVerification
        } else if risk_score <= 900 {
            FraudRecommendation::Delay
        } else {
            FraudRecommendation::Block
        }
    }

    /// How sure the engine is of its scoring, from the history counters.
    pub fn calculate_confidence(&self) -> (r: u8)
        ensures
            r == spec_confidence(self.total_operations, self.suspicious_patterns),
    {
        let total_capped: u64 = if self.total_operations > 100 {
            100
        } else {
            self.total_operations
        };
        let patterns_capped: u64 = if self.suspicious_patterns > 10 {
            10
        } else {
            self.suspicious_patterns
        };
        let operations_factor = total_capped * 80 / 100;
        let pattern_factor = patterns_capped * 20 / 10;
        let sum = operations_factor + pattern_factor;
        if sum > 100 {
            100
        } else {
            sum as u8
        }
    }
}

} // verus!
