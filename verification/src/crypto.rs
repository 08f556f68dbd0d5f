//! Trusted boundary to the cryptographic primitives of outside crates.
//!
//! Each primitive's result is a pure function of its arguments, so it is
//! given an uninterpreted name; the verified logic elsewhere in the crate is
//! stated and proved over those names.

use vstd::prelude::*;

verus! {

/// The secp256k1 public key (64 bytes, uncompressed, without prefix) that
/// public-key recovery yields for a digest/recovery-id/signature triple, or
/// `None` when the triple does not correspond to a valid curve point.
pub uninterp spec fn secp256k1_recovered_key(
    digest: Seq<u8>,
    recovery_id: u8,
    signature: Seq<u8>,
) -> Option<Seq<u8>>;

/// The Keccak-256 digest (32 bytes) of a byte sequence.
pub uninterp spec fn keccak256(data: Seq<u8>) -> Seq<u8>;

/// The SHA-256 digest (32 bytes) of a byte sequence.
pub uninterp spec fn sha256(data: Seq<u8>) -> Seq<u8>;

/// The Base58 rendering of a byte sequence.
pub uninterp spec fn base58(data: Seq<u8>) -> Seq<char>;

/// Relies on `solana_program::secp256k1_recover::secp256k1_recover`: public
/// key recovery over the secp256k1 curve. The result depends on the digest,
/// the recovery id and the signature alone; recovery fails exactly when the
/// triple does not name a valid curve point.
#[verifier::external_body]
pub(crate) fn secp256k1_recover_pubkey(
    digest: &[u8; 32],
    recovery_id: u8,
    signature: &[u8; 64],
) -> (r: Option<[u8; 64]>)
    ensures
        match r {
            Some(k) => secp256k1_recovered_key(digest@, recovery_id, signature@) == Some(k@),
            None => secp256k1_recovered_key(digest@, recovery_id, signature@) is None,
        },
{
    match solana_program::secp256k1_recover::secp256k1_recover(digest, recovery_id, signature) {
        Ok(pubkey) => Some(pubkey.to_bytes()),
        Err(_) => None,
    }
}

/// Relies on `solana_program::keccak::hash`: the Keccak-256 digest of the
/// input, a function of the input bytes alone.
#[verifier::external_body]
pub(crate) fn keccak256_hash(data: &[u8]) -> (r: [u8; 32])
    ensures
        r@ == keccak256(data@),
{
    solana_program::keccak::hash(data).to_bytes()
}

/// Relies on `sha2::Sha256` (through the `sha2::Digest` trait): the SHA-256
/// digest of the input, a function of the input bytes alone.
#[verifier::external_body]
pub(crate) fn sha256_hash(data: &[u8]) -> (r: [u8; 32])
    ensures
        r@ == sha256(data@),
{
    let digest = <sha2::Sha256 as sha2::Digest>::digest(data);
    let mut out = [0u8; 32];
    out.copy_from_slice(&digest);
    out
}

/// Relies on `bs58::encode`: the Base58 rendering of the input, a function of
/// the input bytes alone.
#[verifier::external_body]
pub(crate) fn base58_encode(data: &[u8]) -> (r: String)
    ensures
        r@ == base58(data@),
{
    bs58::encode(data).into_string()
}

} // verus!
