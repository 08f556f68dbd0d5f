//! Signature verification for cross-chain instructions: ECDSA public-key
//! recovery, signer-address derivation, message hashing and replay
//! protection through strictly increasing nonces.

use vstd::prelude::*;

use crate::crypto;
use crate::errors::UniversalNftError;
use crate::utils::{spec_chain_id_supported, spec_recipient_len_ok, CrossChainUtils};

verus! {

/// Helpers for signature verification and message hashing.
pub struct SignatureUtils;

/// The 20-byte Ethereum-style address of an uncompressed secp256k1 public
/// key: the last 20 bytes of its Keccak-256 digest.
pub open spec fn spec_eth_address(pubkey: Seq<u8>) -> Seq<u8> {
    crypto::keccak256(pubkey).subrange(12, 32)
}

/// The fixed, order-sensitive concatenation that is hashed for cross-chain
/// signatures: nonce, destination chain id and amount as 64-bit
/// little-endian words, around the raw recipient and payload bytes.
pub open spec fn spec_message_bytes(
    nonce: u64,
    chain_id: u64,
    recipient: Seq<u8>,
    amount: u64,
    data: Seq<u8>,
) -> Seq<u8> {
    vstd::bytes::spec_u64_to_le_bytes(nonce) + vstd::bytes::spec_u64_to_le_bytes(chain_id)
        + recipient + vstd::bytes::spec_u64_to_le_bytes(amount) + data
}

/// The verdict of ECDSA verification against an expected signer address:
/// an error when recovery fails, otherwise whether the recovered key's
/// address equals the expected one.
pub open spec fn spec_verify_ecdsa(
    digest: Seq<u8>,
    signature: Seq<u8>,
    recovery_id: u8,
    expected_signer: Seq<u8>,
) -> Result<bool, UniversalNftError> {
    match crypto::secp256k1_recovered_key(digest, recovery_id, signature) {
        Some(key) => Ok(spec_eth_address(key) == expected_signer),
        None => Err(UniversalNftError::PublicKeyRecoveryFailed),
    }
}

/// The bytes hashed into a deterministic token id: mint address, block
/// number and creation timestamp.
pub open spec fn spec_token_id_bytes(mint: Seq<u8>, block_number: u64, timestamp: i64) -> Seq<u8> {
    mint + vstd::bytes::spec_u64_to_le_bytes(block_number)
        + vstd::bytes::spec_u64_to_le_bytes(timestamp as u64)
}

pub(crate) fn bytes20_eq(a: &[u8; 20], b: &[u8; 20]) -> (r: bool)
    ensures
        r <==> a@ == b@,
{
    let mut i: usize = 0;
    while i < 20
        invariant
            i <= 20,
            forall|j: int| 0 <= j < i ==> a@[j] == b@[j],
        decreases 20 - i,
    {
        if a[i] != b[i] {
            return false;
        }
        i += 1;
    }
    proof {
        assert(a@ =~= b@);
    }
    true
}

impl SignatureUtils {
    /// Verify an ECDSA signature over the secp256k1 curve, Ethereum-style:
    /// recover the signer's public key, derive its address, and compare it
    /// to the expected signer. A mismatch is reported as `Ok(false)`, not as
    /// an error; only a failed recovery is an error.
    pub fn verify_ecdsa_signature(
        message_hash: &[u8; 32],
        signature: &[u8; 64],
        recovery_id: u8,
        expected_signer: &[u8; 20],
    ) -> (r: Result<bool, UniversalNftError>)
        ensures
            r == spec_verify_ecdsa(message_hash@, signature@, recovery_id, expected_signer@),
    {
        match crypto::secp256k1_recover_pubkey(message_hash, recovery_id, signature) {
            Some(key) => {
                let address = Self::pubkey_to_ethereum_address(&key);
                Ok(bytes20_eq(&address, expected_signer))
            },
            None => Err(UniversalNftError::PublicKeyRecoveryFailed),
        }
    }

    /// Derive the 20-byte Ethereum-style address of an uncompressed
    /// secp256k1 public key.
    pub fn pubkey_to_ethereum_address(pubkey: &[u8; 64]) -> (r: [u8; 20])
        ensures
            r@ == spec_eth_address(pubkey@),
    {
        let hash = crypto::keccak256_hash(pubkey.as_slice());
        let mut address = [0u8; 20];
        let mut i: usize = 0;
        while i < 20
            invariant
                i <= 20,
                hash@ == crypto::keccak256(pubkey@),
                forall|j: int| 0 <= j < i ==> address@[j] == hash@[j + 12],
            decreases 20 - i,
        {
            address[i] = hash[i + 12];
            i += 1;
        }
        proof {
            assert(address@ =~= spec_eth_address(pubkey@));
        }
        address
    }

    /// Hash the components of a cross-chain message in their fixed order.
    pub fn hash_message(
        nonce: u64,
        chain_id: u64,
        recipient: &[u8],
        amount: u64,
        data: &[u8],
    ) -> (r: [u8; 32])
        ensures
            r@ == crypto::sha256(spec_message_bytes(nonce, chain_id, recipient@, amount, data@)),
    {
        let mut message: Vec<u8> = Vec::new();
        let mut word = vstd::bytes::u64_to_le_bytes(nonce);
        message.append(&mut word);
        let mut word = vstd::bytes::u64_to_le_bytes(chain_id);
        message.append(&mut word);
        message.extend_from_slice(recipient);
        let mut word = vstd::bytes::u64_to_le_bytes(amount);
        message.append(&mut word);
        message.extend_from_slice(data);
        proof {
            assert(message@ =~= spec_message_bytes(nonce, chain_id, recipient@, amount, data@));
        }
        crypto::sha256_hash(message.as_slice())
    }

    /// Generate a deterministic token id from a mint address, a block number
    /// and a timestamp: the Base58 rendering of their SHA-256 digest.
    pub fn generate_token_id(mint: &[u8; 32], block_number: u64, timestamp: i64) -> (r: String)
        ensures
            r@ == crypto::base58(crypto::sha256(spec_token_id_bytes(mint@, block_number, timestamp))),
    {
        let mut message: Vec<u8> = Vec::new();
        message.extend_from_slice(mint.as_slice());
        let mut word = vstd::bytes::u64_to_le_bytes(block_number);
        message.append(&mut word);
        let mut word = vstd::bytes::u64_to_le_bytes(#[verifier::truncate] (timestamp as u64));
        message.append(&mut word);
        proof {
            assert(message@ =~= spec_token_id_bytes(mint@, block_number, timestamp));
        }
        let digest = crypto::sha256_hash(message.as_slice());
        crypto::base58_encode(digest.as_slice())
    }

    /// Validate the raw format of a cross-chain message: non-empty and at
    /// most 1024 bytes.
    pub fn validate_message_format(message: &[u8]) -> (r: Result<bool, UniversalNftError>)
        ensures
            message@.len() == 0 || message@.len() > 1024 ==> r == Err::<bool, UniversalNftError>(
                UniversalNftError::InvalidMessageFormat,
            ),
            1 <= message@.len() <= 1024 ==> r == Ok::<bool, UniversalNftError>(true),
    {
        if message.len() == 0 || message.len() > 1024 {
            return Err(UniversalNftError::InvalidMessageFormat);
        }
        Ok(true)
    }
}

/// Shared configuration of the pipeline: the authorities that may sign or
/// administer cross-chain instructions, and the replay-protection nonce.
pub struct ProgramConfig {
    /// Authority that can update program settings.
    pub authority: [u8; 32],
    /// Gateway authority for cross-chain operations.
    pub gateway_authority: [u8; 32],
    /// Threshold-signature-scheme authority whose signatures authenticate
    /// cross-chain instructions.
    pub tss_authority: [u8; 32],
    /// Last accepted nonce; only strictly larger nonces are accepted.
    pub nonce: u64,
    /// Derivation bump seed.
    pub bump: u8,
    /// Whether the pipeline is paused.
    pub is_paused: bool,
}

/// The all-zero 32-byte key, meaning "no authority configured".
pub open spec fn spec_zero_key() -> Seq<u8> {
    Seq::new(32, |i: int| 0u8)
}

/// The simplified 20-byte address of a 32-byte ledger key: its first
/// 20 bytes.
pub open spec fn spec_key_eth_address(key: Seq<u8>) -> Seq<u8> {
    key.subrange(0, 20)
}

/// Convert a 32-byte ledger key to the 20-byte address format signatures are
/// checked against.
pub fn pubkey_to_eth_address(pubkey: &[u8; 32]) -> (r: [u8; 20])
    ensures
        r@ == spec_key_eth_address(pubkey@),
{
    let mut address = [0u8; 20];
    let mut i: usize = 0;
    while i < 20
        invariant
            i <= 20,
            forall|j: int| 0 <= j < i ==> address@[j] == pubkey@[j],
        decreases 20 - i,
    {
        address[i] = pubkey[i];
        i += 1;
    }
    proof {
        assert(address@ =~= spec_key_eth_address(pubkey@));
    }
    address
}

pub(crate) fn bytes32_is_zero(key: &[u8; 32]) -> (r: bool)
    ensures
        r <==> key@ == spec_zero_key(),
{
    let mut i: usize = 0;
    while i < 32
        invariant
            i <= 32,
            forall|j: int| 0 <= j < i ==> key@[j] == 0u8,
        decreases 32 - i,
    {
        if key[i] != 0 {
            proof {
                assert(key@[i as int] != spec_zero_key()[i as int]);
            }
            return false;
        }
        i += 1;
    }
    proof {
        assert(key@ =~= spec_zero_key());
    }
    true
}

/// The verdict of authenticating a pre-hashed instruction against the
/// configured authority.
pub open spec fn spec_verify_signature(
    config: ProgramConfig,
    message_hash: Seq<u8>,
    signature: Seq<u8>,
    recovery_id: u8,
) -> Result<(), UniversalNftError> {
    if config.is_paused {
        Err(UniversalNftError::ProgramPaused)
    } else if config.tss_authority@ == spec_zero_key() {
        Err(UniversalNftError::InvalidTssSignature)
    } else {
        match spec_verify_ecdsa(
            message_hash,
            signature,
            recovery_id,
            spec_key_eth_address(config.tss_authority@),
        ) {
            Ok(true) => Ok(()),
            Ok(false) => Err(UniversalNftError::InvalidTssSignature),
            Err(e) => Err(e),
        }
    }
}

/// Authenticate a pre-hashed cross-chain instruction against the configured
/// authority. Mismatch and failed recovery are both fatal here.
pub fn verify_signature(
    config: &ProgramConfig,
    message_hash: &[u8; 32],
    signature: &[u8; 64],
    recovery_id: u8,
) -> (r: Result<(), UniversalNftError>)
    ensures
        r == spec_verify_signature(*config, message_hash@, signature@, recovery_id),
{
    if config.is_paused {
        return Err(UniversalNftError::ProgramPaused);
    }
    if bytes32_is_zero(&config.tss_authority) {
        return Err(UniversalNftError::InvalidTssSignature);
    }
    let tss_eth_address = pubkey_to_eth_address(&config.tss_authority);
    match SignatureUtils::verify_ecdsa_signature(
        message_hash,
        signature,
        recovery_id,
        &tss_eth_address,
    ) {
        Ok(true) => Ok(()),
        Ok(false) => Err(UniversalNftError::InvalidTssSignature),
        Err(e) => Err(e),
    }
}

/// The verdict of verifying a full cross-chain message: pause check, replay
/// check, format checks, then signature verification over the message hash.
pub open spec fn spec_verify_cross_chain_message(
    config: ProgramConfig,
    nonce: u64,
    chain_id: u64,
    recipient: Seq<u8>,
    amount: u64,
    data: Seq<u8>,
    signature: Seq<u8>,
    recovery_id: u8,
) -> Result<(), UniversalNftError> {
    if config.is_paused {
        Err(UniversalNftError::ProgramPaused)
    } else if nonce <= config.nonce {
        Err(UniversalNftError::NonceMismatch)
    } else if !spec_chain_id_supported(chain_id) {
        Err(UniversalNftError::InvalidChainId)
    } else if !spec_recipient_len_ok(recipient.len() as int) {
        Err(UniversalNftError::InvalidRecipient)
    } else {
        match spec_verify_ecdsa(
            crypto::sha256(spec_message_bytes(nonce, chain_id, recipient, amount, data)),
            signature,
            recovery_id,
            spec_key_eth_address(config.tss_authority@),
        ) {
            Ok(true) => Ok(()),
            Ok(false) => Err(UniversalNftError::InvalidTssSignature),
            Err(e) => Err(e),
        }
    }
}

/// Verify a cross-chain message and, exactly on success, persist its nonce
/// so that any replay is rejected.
pub fn verify_cross_chain_message(
    config: &mut ProgramConfig,
    nonce: u64,
    chain_id: u64,
    recipient: &[u8],
    amount: u64,
    data: &[u8],
    signature: &[u8; 64],
    recovery_id: u8,
) -> (r: Result<(), UniversalNftError>)
    ensures
        r == spec_verify_cross_chain_message(
            *old(config),
            nonce,
            chain_id,
            recipient@,
            amount,
            data@,
            signature@,
            recovery_id,
        ),
        r is Ok ==> *final(config) == (ProgramConfig { nonce, ..*old(config) }),
        r is Err ==> *final(config) == *old(config),
{
    if config.is_paused {
        return Err(UniversalNftError::ProgramPaused);
    }
    if nonce <= config.nonce {
        return Err(UniversalNftError::NonceMismatch);
    }
    if let Err(e) = CrossChainUtils::validate_chain_id(chain_id) {
        return Err(e);
    }
    if let Err(e) = CrossChainUtils::validate_recipient(recipient) {
        return Err(e);
    }
    let message_hash = SignatureUtils::hash_message(nonce, chain_id, recipient, amount, data);
    let tss_eth_address = pubkey_to_eth_address(&config.tss_authority);
    match SignatureUtils::verify_ecdsa_signature(
        &message_hash,
        signature,
        recovery_id,
        &tss_eth_address,
    ) {
        Ok(true) => {
            config.nonce = nonce;
            Ok(())
        },
        Ok(false) => Err(UniversalNftError::InvalidTssSignature),
        Err(e) => Err(e),
    }
}

/// The verdict of batch verification from entry `i` on: the first failing
/// entry's error, or success when every remaining entry verifies.
pub open spec fn spec_batch_verify_from(
    expected_signer: Seq<u8>,
    messages: Seq<[u8; 32]>,
    signatures: Seq<[u8; 64]>,
    recovery_ids: Seq<u8>,
    i: int,
) -> Result<(), UniversalNftError>
    decreases messages.len() - i,
{
    if i < 0 || i >= messages.len() {
        Ok(())
    } else {
        match spec_verify_ecdsa(messages[i]@, signatures[i]@, recovery_ids[i], expected_signer) {
            Ok(true) => spec_batch_verify_from(
                expected_signer,
                messages,
                signatures,
                recovery_ids,
                i + 1,
            ),
            Ok(false) => Err(UniversalNftError::InvalidTssSignature),
            Err(e) => Err(e),
        }
    }
}

/// The verdict of verifying a batch of pre-hashed instructions: empty and
/// mismatched batches are a format error, batches are capped at 10 entries,
/// and verification short-circuits on the first failing entry.
pub open spec fn spec_batch_verify_signatures(
    config: ProgramConfig,
    messages: Seq<[u8; 32]>,
    signatures: Seq<[u8; 64]>,
    recovery_ids: Seq<u8>,
) -> Result<(), UniversalNftError> {
    if config.is_paused {
        Err(UniversalNftError::ProgramPaused)
    } else if messages.len() == 0 || messages.len() != signatures.len() || messages.len()
        != recovery_ids.len() {
        Err(UniversalNftError::InvalidMessageFormat)
    } else if messages.len() > 10 {
        Err(UniversalNftError::InvalidMessageFormat)
    } else {
        spec_batch_verify_from(
            spec_key_eth_address(config.tss_authority@),
            messages,
            signatures,
            recovery_ids,
            0,
        )
    }
}

/// Verify up to 10 pre-hashed instructions in one call. Verification is
/// independent per entry and stops at the first failure.
pub fn batch_verify_signatures(
    config: &ProgramConfig,
    messages: &Vec<[u8; 32]>,
    signatures: &Vec<[u8; 64]>,
    recovery_ids: &Vec<u8>,
) -> (r: Result<(), UniversalNftError>)
    ensures
        r == spec_batch_verify_signatures(*config, messages@, signatures@, recovery_ids@),
{
    if config.is_paused {
        return Err(UniversalNftError::ProgramPaused);
    }
    if messages.len() == 0 || messages.len() != signatures.len() || messages.len()
        != recovery_ids.len() {
        return Err(UniversalNftError::InvalidMessageFormat);
    }
    if messages.len() > 10 {
        return Err(UniversalNftError::InvalidMessageFormat);
    }
    let tss_eth_address = pubkey_to_eth_address(&config.tss_authority);
    let ghost expected = spec_key_eth_address(config.tss_authority@);
    let mut i: usize = 0;
    while i < messages.len()
        invariant
            i <= messages@.len(),
            tss_eth_address@ == expected,
            messages@.len() == signatures@.len() == recovery_ids@.len(),
            spec_batch_verify_signatures(*config, messages@, signatures@, recovery_ids@)
                == spec_batch_verify_from(expected, messages@, signatures@, recovery_ids@, i as int),
        decreases messages@.len() - i,
    {
        let verdict = SignatureUtils::verify_ecdsa_signature(
            &messages[i],
            &signatures[i],
            recovery_ids[i],
            &tss_eth_address,
        );
        proof {
            assert(spec_batch_verify_from(expected, messages@, signatures@, recovery_ids@, i as int)
                == match spec_verify_ecdsa(
                messages@[i as int]@,
                signatures@[i as int]@,
                recovery_ids@[i as int],
                expected,
            ) {
                Ok(true) => spec_batch_verify_from(
                    expected,
                    messages@,
                    signatures@,
                    recovery_ids@,
                    i as int + 1,
                ),
                Ok(false) => Err(UniversalNftError::InvalidTssSignature),
                Err(e) => Err(e),
            });
        }
        match verdict {
            Ok(true) => {},
            Ok(false) => {
                return Err(UniversalNftError::InvalidTssSignature);
            },
            Err(e) => {
                return Err(e);
            },
        }
        i += 1;
    }
    proof {
        assert(spec_batch_verify_from(expected, messages@, signatures@, recovery_ids@, i as int)
            == Ok::<(), UniversalNftError>(()));
    }
    Ok(())
}

/// Recover the signer address of a signature for diagnostics. While the
/// pipeline is paused only the configured authority may call this.
pub fn recover_public_key(
    config: &ProgramConfig,
    caller: Option<&[u8; 32]>,
    message_hash: &[u8; 32],
    signature: &[u8; 64],
    recovery_id: u8,
) -> (r: Result<[u8; 20], UniversalNftError>)
    ensures
        match r {
            Ok(address) => {
                &&& !(config.is_paused && !(caller matches Some(k) && k@ == config.authority@))
                &&& crypto::secp256k1_recovered_key(message_hash@, recovery_id, signature@)
                    matches Some(key) && address@ == spec_eth_address(key)
            },
            Err(e) => {
                if config.is_paused && !(caller matches Some(k) && k@ == config.authority@) {
                    e == UniversalNftError::ProgramPaused
                } else {
                    e == UniversalNftError::PublicKeyRecoveryFailed
                        && crypto::secp256k1_recovered_key(
                        message_hash@,
                        recovery_id,
                        signature@,
                    ) is None
                }
            },
        },
{
    if config.is_paused {
        let authorized = match caller {
            Some(key) => bytes32_eq(key, &config.authority),
            None => false,
        };
        if !authorized {
            return Err(UniversalNftError::ProgramPaused);
        }
    }
    match crypto::secp256k1_recover_pubkey(message_hash, recovery_id, signature) {
        Some(key) => Ok(SignatureUtils::pubkey_to_ethereum_address(&key)),
        None => Err(UniversalNftError::PublicKeyRecoveryFailed),
    }
}

/// The verdict of verifying that a message was signed by a claimed sender.
pub open spec fn spec_verify_sender_authority(
    config: ProgramConfig,
    sender_address: Seq<u8>,
    message_hash: Seq<u8>,
    signature: Seq<u8>,
    recovery_id: u8,
) -> Result<(), UniversalNftError> {
    if config.is_paused {
        Err(UniversalNftError::ProgramPaused)
    } else {
        match spec_verify_ecdsa(message_hash, signature, recovery_id, sender_address) {
            Ok(true) => Ok(()),
            Ok(false) => Err(UniversalNftError::SenderVerificationFailed),
            Err(e) => Err(e),
        }
    }
}

/// Verify that a pre-hashed message was signed by the claimed sender rather
/// than by the configured authority.
pub fn verify_sender_authority(
    config: &ProgramConfig,
    sender_address: &[u8; 20],
    message_hash: &[u8; 32],
    signature: &[u8; 64],
    recovery_id: u8,
) -> (r: Result<(), UniversalNftError>)
    ensures
        r == spec_verify_sender_authority(
            *config,
            sender_address@,
            message_hash@,
            signature@,
            recovery_id,
        ),
{
    if config.is_paused {
        return Err(UniversalNftError::ProgramPaused);
    }
    match SignatureUtils::verify_ecdsa_signature(
        message_hash,
        signature,
        recovery_id,
        sender_address,
    ) {
        Ok(true) => Ok(()),
        Ok(false) => Err(UniversalNftError::SenderVerificationFailed),
        Err(e) => Err(e),
    }
}

fn bytes32_eq(a: &[u8; 32], b: &[u8; 32]) -> (r: bool)
    ensures
        r <==> a@ == b@,
{
    let mut i: usize = 0;
    while i < 32
        invariant
            i <= 32,
            forall|j: int| 0 <= j < i ==> a@[j] == b@[j],
        decreases 32 - i,
    {
        if a[i] != b[i] {
            return false;
        }
        i += 1;
    }
    proof {
        assert(a@ =~= b@);
    }
    true
}

/// Replay resistance: a nonce at or below the last accepted one is never
/// accepted, whatever the rest of the message holds; when the pipeline is
/// not paused it is rejected as a nonce mismatch.
pub proof fn lemma_replayed_nonce_rejected(
    config: ProgramConfig,
    nonce: u64,
    chain_id: u64,
    recipient: Seq<u8>,
    amount: u64,
    data: Seq<u8>,
    signature: Seq<u8>,
    recovery_id: u8,
)
    requires
        nonce <= config.nonce,
    ensures
        spec_verify_cross_chain_message(
            config,
            nonce,
            chain_id,
            recipient,
            amount,
            data,
            signature,
            recovery_id,
        ) !is Ok,
        !config.is_paused ==> spec_verify_cross_chain_message(
            config,
            nonce,
            chain_id,
            recipient,
            amount,
            data,
            signature,
            recovery_id,
        ) == Err::<(), UniversalNftError>(UniversalNftError::NonceMismatch),
{
}

/// Submitting the same nonce twice is always rejected: once a message with
/// nonce `n` has been accepted, the updated configuration rejects every
/// further message with nonce `n`, whatever its other fields hold.
pub proof fn lemma_same_nonce_twice_rejected(
    config: ProgramConfig,
    nonce: u64,
    chain_id1: u64,
    recipient1: Seq<u8>,
    amount1: u64,
    data1: Seq<u8>,
    signature1: Seq<u8>,
    recovery_id1: u8,
    chain_id2: u64,
    recipient2: Seq<u8>,
    amount2: u64,
    data2: Seq<u8>,
    signature2: Seq<u8>,
    recovery_id2: u8,
)
    requires
        spec_verify_cross_chain_message(
            config,
            nonce,
            chain_id1,
            recipient1,
            amount1,
            data1,
            signature1,
            recovery_id1,
        ) is Ok,
    ensures
        spec_verify_cross_chain_message(
            (ProgramConfig { nonce, ..config }),
            nonce,
            chain_id2,
            recipient2,
            amount2,
            data2,
            signature2,
            recovery_id2,
        ) == Err::<(), UniversalNftError>(UniversalNftError::NonceMismatch),
{
}

/// Strictly increasing nonces are always accepted, provided the message is
/// well-formed and carries the authority's signature: replay protection
/// rejects nothing that is new.
pub proof fn lemma_increasing_nonce_accepted(
    config: ProgramConfig,
    nonce: u64,
    chain_id: u64,
    recipient: Seq<u8>,
    amount: u64,
    data: Seq<u8>,
    signature: Seq<u8>,
    recovery_id: u8,
)
    requires
        !config.is_paused,
        nonce > config.nonce,
        spec_chain_id_supported(chain_id),
        spec_recipient_len_ok(recipient.len() as int),
        spec_verify_ecdsa(
            crypto::sha256(spec_message_bytes(nonce, chain_id, recipient, amount, data)),
            signature,
            recovery_id,
            spec_key_eth_address(config.tss_authority@),
        ) == Ok::<bool, UniversalNftError>(true),
    ensures
        spec_verify_cross_chain_message(
            config,
            nonce,
            chain_id,
            recipient,
            amount,
            data,
            signature,
            recovery_id,
        ) is Ok,
{
}

} // verus!
