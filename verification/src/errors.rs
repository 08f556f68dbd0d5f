//! Error classification shared by every component of the pipeline.

use vstd::prelude::*;

verus! {

/// Every rejection in the pipeline carries one of these classifications, so
/// that the next layer can decide whether the failed operation is retryable.
#[derive(Clone, Copy, Debug, PartialEq, Eq, Structural)]
pub enum UniversalNftError {
    Unauthorized,
    ProgramPaused,
    InvalidGatewayAuthority,
    InvalidTssSignature,
    InvalidMessageFormat,
    NftLocked,
    InvalidChainId,
    InvalidRecipient,
    InsufficientGasLimit,
    NonceMismatch,
    InvalidSignatureRecovery,
    TransferAlreadyExists,
    TransferNotFound,
    InvalidTransferStatus,
    NftNotFound,
    InvalidNftOwner,
    CollectionVerificationFailed,
    MaxSupplyExceeded,
    InvalidMetadataUri,
    InvalidTokenName,
    InvalidTokenSymbol,
    ArithmeticOverflow,
    InvalidInstructionOrigin,
    InvalidCallOrigin,
    MessageHashMismatch,
    InvalidEcdsaSignature,
    PublicKeyRecoveryFailed,
    SenderVerificationFailed,
    CircuitBreakerOpen,
    CircuitBreakerRateLimit,
}

} // verus!
