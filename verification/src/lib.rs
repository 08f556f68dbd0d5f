//! Resilience core for a cross-chain NFT gateway.
//!
//! The crate guards state-changing cross-chain NFT operations with four
//! cooperating components: ECDSA signature verification with replay
//! protection (`signature`), a behavioural fraud-risk engine
//! (`fraud_detection`), a circuit breaker that halts the pipeline when
//! failures spike (`circuit_breaker`), and retry/recovery orchestration for
//! operations that failed transiently (`transaction_retry`, `error_recovery`,
//! `state_recovery`).

pub mod arith;
pub mod crypto;
pub mod errors;
pub mod signature;
pub mod text;
pub mod transaction_retry;
pub mod utils;
pub mod circuit_breaker;
pub mod fraud_detection;
pub mod error_recovery;
pub mod state_recovery;
