//! Validation helpers for cross-chain operations and NFT metadata.

use vstd::prelude::*;
use vstd::string::StringSliceAdditionalSpecFns;

use crate::errors::UniversalNftError;

verus! {

/// Chain ids that the gateway recognises as transfer endpoints.
pub open spec fn spec_chain_id_supported(chain_id: u64) -> bool {
    chain_id == 7000 || chain_id == 7001 || chain_id == 1 || chain_id == 5 || chain_id == 56
        || chain_id == 97
}

/// A recipient is an Ethereum-style address (20 bytes) or a local ledger
/// address (32 bytes).
pub open spec fn spec_recipient_len_ok(len: int) -> bool {
    len == 20 || len == 32
}

pub open spec fn spec_gas_limit_ok(gas_limit: u64) -> bool {
    21000 <= gas_limit <= 10_000_000
}

/// Utilities for cross-chain operations.
pub struct CrossChainUtils;

impl CrossChainUtils {
    /// Accept only the chain ids of known transfer endpoints.
    pub fn validate_chain_id(chain_id: u64) -> (r: Result<bool, UniversalNftError>)
        ensures
            spec_chain_id_supported(chain_id) ==> r == Ok::<bool, UniversalNftError>(true),
            !spec_chain_id_supported(chain_id) ==> r == Err::<bool, UniversalNftError>(
                UniversalNftError::InvalidChainId,
            ),
    {
        if chain_id == 7000 || chain_id == 7001 || chain_id == 1 || chain_id == 5 || chain_id == 56
            || chain_id == 97 {
            Ok(true)
        } else {
            Err(UniversalNftError::InvalidChainId)
        }
    }

    /// Accept recipients in Ethereum (20-byte) or local (32-byte) format.
    pub fn validate_recipient(recipient: &[u8]) -> (r: Result<bool, UniversalNftError>)
        ensures
            spec_recipient_len_ok(recipient@.len() as int) ==> r == Ok::<bool, UniversalNftError>(
                true,
            ),
            !spec_recipient_len_ok(recipient@.len() as int) ==> r == Err::<
                bool,
                UniversalNftError,
            >(UniversalNftError::InvalidRecipient),
    {
        if recipient.len() == 20 || recipient.len() == 32 {
            Ok(true)
        } else {
            Err(UniversalNftError::InvalidRecipient)
        }
    }

    /// Accept gas limits inside the window an outbound instruction may carry.
    pub fn validate_gas_limit(gas_limit: u64) -> (r: Result<bool, UniversalNftError>)
        ensures
            spec_gas_limit_ok(gas_limit) ==> r == Ok::<bool, UniversalNftError>(true),
            !spec_gas_limit_ok(gas_limit) ==> r == Err::<bool, UniversalNftError>(
                UniversalNftError::InsufficientGasLimit,
            ),
    {
        if 21000 <= gas_limit && gas_limit <= 10_000_000 {
            Ok(true)
        } else {
            Err(UniversalNftError::InsufficientGasLimit)
        }
    }
}

/// A printable ASCII byte, or the space character.
pub open spec fn spec_name_byte_ok(b: u8) -> bool {
    0x21 <= b <= 0x7e || b == 0x20
}

/// An ASCII letter or digit.
pub open spec fn spec_symbol_byte_ok(b: u8) -> bool {
    (0x30 <= b <= 0x39) || (0x41 <= b <= 0x5a) || (0x61 <= b <= 0x7a)
}

/// A valid NFT name: 1 to 32 bytes, printable ASCII and spaces only.
pub open spec fn spec_valid_name(bytes: Seq<u8>) -> bool {
    1 <= bytes.len() <= 32 && (forall|i: int| 0 <= i < bytes.len() ==> spec_name_byte_ok(bytes[i]))
}

/// A valid NFT symbol: 1 to 16 bytes, ASCII alphanumeric only.
pub open spec fn spec_valid_symbol(bytes: Seq<u8>) -> bool {
    1 <= bytes.len() <= 16 && (forall|i: int|
        0 <= i < bytes.len() ==> spec_symbol_byte_ok(bytes[i]))
}

pub open spec fn spec_starts_with(bytes: Seq<u8>, prefix: Seq<u8>) -> bool {
    prefix.len() <= bytes.len() && bytes.subrange(0, prefix.len() as int) == prefix
}

pub open spec fn spec_http_prefix() -> Seq<u8> {
    seq![104u8, 116, 116, 112, 58, 47, 47]
}

pub open spec fn spec_https_prefix() -> Seq<u8> {
    seq![104u8, 116, 116, 112, 115, 58, 47, 47]
}

pub open spec fn spec_ipfs_prefix() -> Seq<u8> {
    seq![105u8, 112, 102, 115, 58, 47, 47]
}

pub open spec fn spec_ar_prefix() -> Seq<u8> {
    seq![97u8, 114, 58, 47, 47]
}

/// A valid metadata URI: 1 to 200 bytes and one of the accepted schemes.
pub open spec fn spec_valid_uri(bytes: Seq<u8>) -> bool {
    &&& 1 <= bytes.len() <= 200
    &&& {
        ||| spec_starts_with(bytes, spec_http_prefix())
        ||| spec_starts_with(bytes, spec_https_prefix())
        ||| spec_starts_with(bytes, spec_ipfs_prefix())
        ||| spec_starts_with(bytes, spec_ar_prefix())
    }
}

pub(crate) fn starts_with(bytes: &[u8], prefix: &[u8]) -> (r: bool)
    ensures
        r == spec_starts_with(bytes@, prefix@),
{
    if prefix.len() > bytes.len() {
        return false;
    }
    let mut i: usize = 0;
    while i < prefix.len()
        invariant
            i <= prefix@.len() <= bytes@.len(),
            forall|j: int| 0 <= j < i ==> bytes@[j] == prefix@[j],
        decreases prefix@.len() - i,
    {
        if bytes[i] != prefix[i] {
            return false;
        }
        i += 1;
    }
    proof {
        assert(bytes@.subrange(0, prefix@.len() as int) =~= prefix@);
    }
    true
}

/// Utilities for NFT metadata validation.
pub struct MetadataUtils;

impl MetadataUtils {
    /// Accept names of 1 to 32 printable ASCII characters (spaces allowed).
    pub fn validate_name(name: &str) -> (r: Result<bool, UniversalNftError>)
        ensures
            spec_valid_name(name.spec_bytes()) ==> r == Ok::<bool, UniversalNftError>(true),
            !spec_valid_name(name.spec_bytes()) ==> r == Err::<bool, UniversalNftError>(
                UniversalNftError::InvalidTokenName,
            ),
    {
        let bytes = name.as_bytes();
        if bytes.len() == 0 || bytes.len() > 32 {
            return Err(UniversalNftError::InvalidTokenName);
        }
        let mut i: usize = 0;
        while i < bytes.len()
            invariant
                i <= bytes@.len(),
                bytes@ == name.spec_bytes(),
                1 <= bytes@.len() <= 32,
                forall|j: int| 0 <= j < i ==> spec_name_byte_ok(bytes@[j]),
            decreases bytes@.len() - i,
        {
            let b = bytes[i];
            if !((0x21 <= b && b <= 0x7e) || b == 0x20) {
                proof {
                    assert(!spec_name_byte_ok(bytes@[i as int]));
                }
                return Err(UniversalNftError::InvalidTokenName);
            }
            i += 1;
        }
        Ok(true)
    }

    /// Accept symbols of 1 to 16 ASCII alphanumeric characters.
    pub fn validate_symbol(symbol: &str) -> (r: Result<bool, UniversalNftError>)
        ensures
            spec_valid_symbol(symbol.spec_bytes()) ==> r == Ok::<bool, UniversalNftError>(true),
            !spec_valid_symbol(symbol.spec_bytes()) ==> r == Err::<bool, UniversalNftError>(
                UniversalNftError::InvalidTokenSymbol,
            ),
    {
        let bytes = symbol.as_bytes();
        if bytes.len() == 0 || bytes.len() > 16 {
            return Err(UniversalNftError::InvalidTokenSymbol);
        }
        let mut i: usize = 0;
        while i < bytes.len()
            invariant
                i <= bytes@.len(),
                bytes@ == symbol.spec_bytes(),
                1 <= bytes@.len() <= 16,
                forall|j: int| 0 <= j < i ==> spec_symbol_byte_ok(bytes@[j]),
            decreases bytes@.len() - i,
        {
            let b = bytes[i];
            if !((0x30 <= b && b <= 0x39) || (0x41 <= b && b <= 0x5a) || (0x61 <= b && b <= 0x7a)) {
                proof {
                    assert(!spec_symbol_byte_ok(bytes@[i as int]));
                }
                return Err(UniversalNftError::InvalidTokenSymbol);
            }
            i += 1;
        }
        Ok(true)
    }

    /// Accept URIs of 1 to 200 bytes with an http, https, ipfs or ar scheme.
    pub fn validate_uri(uri: &str) -> (r: Result<bool, UniversalNftError>)
        ensures
            spec_valid_uri(uri.spec_bytes()) ==> r == Ok::<bool, UniversalNftError>(true),
            !spec_valid_uri(uri.spec_bytes()) ==> r == Err::<bool, UniversalNftError>(
                UniversalNftError::InvalidMetadataUri,
            ),
    {
        let bytes = uri.as_bytes();
        if bytes.len() == 0 || bytes.len() > 200 {
            return Err(UniversalNftError::InvalidMetadataUri);
        }
        let http: [u8; 7] = [104, 116, 116, 112, 58, 47, 47];
        let https: [u8; 8] = [104, 116, 116, 112, 115, 58, 47, 47];
        let ipfs: [u8; 7] = [105, 112, 102, 115, 58, 47, 47];
        let ar: [u8; 5] = [97, 114, 58, 47, 47];
        proof {
            assert(http@ =~= spec_http_prefix());
            assert(https@ =~= spec_https_prefix());
            assert(ipfs@ =~= spec_ipfs_prefix());
            assert(ar@ =~= spec_ar_prefix());
        }
        if starts_with(bytes, http.as_slice()) || starts_with(bytes, https.as_slice())
            || starts_with(bytes, ipfs.as_slice()) || starts_with(bytes, ar.as_slice()) {
            Ok(true)
        } else {
            Err(UniversalNftError::InvalidMetadataUri)
        }
    }
}

/// Operation kinds whose compute budgets differ.
#[derive(Clone, Copy, Debug, PartialEq, Eq, Structural)]
pub enum OperationType {
    MintNft,
    TransferNft,
    BurnNft,
    CrossChainCall,
    VerifySignature,
    UpdateMetadata,
}

pub open spec fn spec_compute_units(operation_type: OperationType) -> u32 {
    match operation_type {
        OperationType::MintNft => 50_000,
        OperationType::TransferNft => 20_000,
        OperationType::BurnNft => 30_000,
        OperationType::CrossChainCall => 100_000,
        OperationType::VerifySignature => 40_000,
        OperationType::UpdateMetadata => 25_000,
    }
}

/// Compute budget utilities.
pub struct ComputeUtils;

impl ComputeUtils {
    /// The compute units an operation of the given kind is budgeted.
    pub fn calculate_compute_units(operation_type: OperationType) -> (r: u32)
        ensures
            r == spec_compute_units(operation_type),
    {
        match operation_type {
            OperationType::MintNft => 50_000,
            OperationType::TransferNft => 20_000,
            OperationType::BurnNft => 30_000,
            OperationType::CrossChainCall => 100_000,
            OperationType::VerifySignature => 40_000,
            OperationType::UpdateMetadata => 25_000,
        }
    }

    /// The compute budget of the surrounding execution environment is
    /// presumed sufficient here; admission control happens elsewhere.
    pub fn check_compute_budget() -> (r: Result<bool, UniversalNftError>)
        ensures
            r == Ok::<bool, UniversalNftError>(true),
    {
        Ok(true)
    }
}

pub const LAMPORTS_PER_BYTE: u64 = 6960;

/// Rent calculation utilities.
pub struct RentUtils;

impl RentUtils {
    /// A flat per-byte estimate of the deposit that keeps an account of the
    /// given size alive.
    pub fn calculate_rent_exemption(data_len: usize) -> (r: u64)
        requires
            data_len * LAMPORTS_PER_BYTE <= u64::MAX,
        ensures
            r == data_len * LAMPORTS_PER_BYTE,
    {
        (data_len as u64) * LAMPORTS_PER_BYTE
    }
}

} // verus!
