use universal_nft::errors::UniversalNftError;
use universal_nft::signature::{
    batch_verify_signatures, pubkey_to_eth_address, recover_public_key, verify_cross_chain_message,
    verify_sender_authority, verify_signature, ProgramConfig, SignatureUtils,
};

fn test_keypair(seed: u8) -> (libsecp256k1::SecretKey, [u8; 64], [u8; 20]) {
    let mut sk_bytes = [0u8; 32];
    sk_bytes[31] = seed;
    let sk = libsecp256k1::SecretKey::parse(&sk_bytes).unwrap();
    let pk = libsecp256k1::PublicKey::from_secret_key(&sk);
    let serialized = pk.serialize();
    let mut pk64 = [0u8; 64];
    pk64.copy_from_slice(&serialized[1..65]);
    let address = SignatureUtils::pubkey_to_ethereum_address(&pk64);
    (sk, pk64, address)
}

fn sign_digest(sk: &libsecp256k1::SecretKey, digest: &[u8; 32]) -> ([u8; 64], u8) {
    let message = libsecp256k1::Message::parse(digest);
    let (signature, recovery_id) = libsecp256k1::sign(&message, sk);
    (signature.serialize(), recovery_id.serialize())
}

fn base_config() -> ProgramConfig {
    ProgramConfig {
        authority: [9u8; 32],
        gateway_authority: [8u8; 32],
        tss_authority: [7u8; 32],
        nonce: 0,
        bump: 1,
        is_paused: false,
    }
}

/// A config whose 20-byte signer address matches the given key's address.
fn config_for_signer(address: &[u8; 20]) -> ProgramConfig {
    let mut tss = [0u8; 32];
    tss[..20].copy_from_slice(address);
    tss[20..].copy_from_slice(&[5u8; 12]);
    ProgramConfig { tss_authority: tss, ..base_config() }
}

#[test]
fn test_pubkey_to_eth_address() {
    let pubkey: [u8; 32] = core::array::from_fn(|i| (i as u8).wrapping_mul(17).wrapping_add(3));
    let eth_address = pubkey_to_eth_address(&pubkey);
    assert_eq!(eth_address.len(), 20);
    assert_eq!(&eth_address[..], &pubkey[..20]);
}

#[test]
fn test_message_hash() {
    let nonce = 1;
    let chain_id = 7000;
    let recipient = vec![1u8; 20];
    let amount = 100;
    let data = vec![2u8; 32];

    let hash1 = SignatureUtils::hash_message(nonce, chain_id, &recipient, amount, &data);
    let hash2 = SignatureUtils::hash_message(nonce, chain_id, &recipient, amount, &data);

    assert_eq!(hash1, hash2);

    let hash3 = SignatureUtils::hash_message(nonce + 1, chain_id, &recipient, amount, &data);
    assert_ne!(hash1, hash3);
}

#[test]
fn hash_message_matches_sha256_of_concatenation() {
    let nonce: u64 = 42;
    let chain_id: u64 = 1;
    let recipient = [0xABu8; 20];
    let amount: u64 = 12345;
    let data = [0xCDu8; 7];

    let mut concatenated = Vec::new();
    concatenated.extend_from_slice(&nonce.to_le_bytes());
    concatenated.extend_from_slice(&chain_id.to_le_bytes());
    concatenated.extend_from_slice(&recipient);
    concatenated.extend_from_slice(&amount.to_le_bytes());
    concatenated.extend_from_slice(&data);
    let expected: [u8; 32] = <sha2::Sha256 as sha2::Digest>::digest(&concatenated).into();

    let actual = SignatureUtils::hash_message(nonce, chain_id, &recipient, amount, &data);
    assert_eq!(actual, expected);
}

#[test]
fn verify_returns_true_for_authority_signature() {
    let (sk, _pk, address) = test_keypair(11);
    let digest = [7u8; 32];
    let (signature, recovery_id) = sign_digest(&sk, &digest);
    let verdict =
        SignatureUtils::verify_ecdsa_signature(&digest, &signature, recovery_id, &address);
    assert_eq!(verdict, Ok(true));
}

#[test]
fn verify_rejects_bit_flipped_signature() {
    let (sk, _pk, address) = test_keypair(11);
    let digest = [7u8; 32];
    let (mut signature, recovery_id) = sign_digest(&sk, &digest);
    signature[10] ^= 0x01;
    let verdict =
        SignatureUtils::verify_ecdsa_signature(&digest, &signature, recovery_id, &address);
    // A corrupted signature either recovers a different key or fails to
    // recover at all; it never verifies.
    assert_ne!(verdict, Ok(true));
}

#[test]
fn verify_rejects_bit_flipped_digest() {
    let (sk, _pk, address) = test_keypair(11);
    let digest = [7u8; 32];
    let (signature, recovery_id) = sign_digest(&sk, &digest);
    let mut wrong_digest = digest;
    wrong_digest[0] ^= 0x80;
    let verdict =
        SignatureUtils::verify_ecdsa_signature(&wrong_digest, &signature, recovery_id, &address);
    assert_ne!(verdict, Ok(true));
}

#[test]
fn verify_rejects_other_signer() {
    // Scenario: a digest signed by one key verifies against that key's
    // address and against no other.
    let (sk, _pk, address) = test_keypair(11);
    let (other_sk, _opk, _oaddr) = test_keypair(12);
    let digest = [3u8; 32];

    let (signature, recovery_id) = sign_digest(&sk, &digest);
    assert_eq!(
        SignatureUtils::verify_ecdsa_signature(&digest, &signature, recovery_id, &address),
        Ok(true)
    );

    let (other_signature, other_recovery_id) = sign_digest(&other_sk, &digest);
    assert_eq!(
        SignatureUtils::verify_ecdsa_signature(
            &digest,
            &other_signature,
            other_recovery_id,
            &address
        ),
        Ok(false)
    );
}

#[test]
fn recovery_fails_for_invalid_recovery_id() {
    let (sk, _pk, address) = test_keypair(11);
    let digest = [7u8; 32];
    let (signature, _recovery_id) = sign_digest(&sk, &digest);
    let verdict = SignatureUtils::verify_ecdsa_signature(&digest, &signature, 9, &address);
    assert_eq!(verdict, Err(UniversalNftError::PublicKeyRecoveryFailed));
}

#[test]
fn verify_signature_against_configured_authority() {
    let (sk, _pk, address) = test_keypair(21);
    let config = config_for_signer(&address);
    let digest = [1u8; 32];
    let (signature, recovery_id) = sign_digest(&sk, &digest);
    assert_eq!(verify_signature(&config, &digest, &signature, recovery_id), Ok(()));

    let paused = ProgramConfig { is_paused: true, ..config_for_signer(&address) };
    assert_eq!(
        verify_signature(&paused, &digest, &signature, recovery_id),
        Err(UniversalNftError::ProgramPaused)
    );

    let unset = ProgramConfig { tss_authority: [0u8; 32], ..base_config() };
    assert_eq!(
        verify_signature(&unset, &digest, &signature, recovery_id),
        Err(UniversalNftError::InvalidTssSignature)
    );
}

#[test]
fn cross_chain_message_accepts_increasing_nonces_and_rejects_replays() {
    let (sk, _pk, address) = test_keypair(31);
    let mut config = config_for_signer(&address);
    let recipient = [4u8; 20];
    let data = [5u8; 8];

    let digest = SignatureUtils::hash_message(1, 7000, &recipient, 500, &data);
    let (signature, recovery_id) = sign_digest(&sk, &digest);
    assert_eq!(
        verify_cross_chain_message(&mut config, 1, 7000, &recipient, 500, &data, &signature, recovery_id),
        Ok(())
    );
    assert_eq!(config.nonce, 1);

    // Submitting the same nonce twice is always rejected.
    assert_eq!(
        verify_cross_chain_message(&mut config, 1, 7000, &recipient, 500, &data, &signature, recovery_id),
        Err(UniversalNftError::NonceMismatch)
    );
    assert_eq!(config.nonce, 1);

    // A lower nonce is rejected too.
    assert_eq!(
        verify_cross_chain_message(&mut config, 0, 7000, &recipient, 500, &data, &signature, recovery_id),
        Err(UniversalNftError::NonceMismatch)
    );

    // Strictly increasing nonces keep being accepted, gaps tolerated.
    let digest5 = SignatureUtils::hash_message(5, 7000, &recipient, 500, &data);
    let (signature5, recovery_id5) = sign_digest(&sk, &digest5);
    assert_eq!(
        verify_cross_chain_message(&mut config, 5, 7000, &recipient, 500, &data, &signature5, recovery_id5),
        Ok(())
    );
    assert_eq!(config.nonce, 5);
}

#[test]
fn cross_chain_message_rejects_bad_format() {
    let (sk, _pk, address) = test_keypair(31);
    let recipient = [4u8; 20];
    let data = [5u8; 8];
    let digest = SignatureUtils::hash_message(1, 9999, &recipient, 500, &data);
    let (signature, recovery_id) = sign_digest(&sk, &digest);

    let mut config = config_for_signer(&address);
    assert_eq!(
        verify_cross_chain_message(&mut config, 1, 9999, &recipient, 500, &data, &signature, recovery_id),
        Err(UniversalNftError::InvalidChainId)
    );
    assert_eq!(config.nonce, 0);

    let bad_recipient = [4u8; 21];
    let mut config = config_for_signer(&address);
    assert_eq!(
        verify_cross_chain_message(&mut config, 1, 7000, &bad_recipient, 500, &data, &signature, recovery_id),
        Err(UniversalNftError::InvalidRecipient)
    );

    let mut paused = ProgramConfig { is_paused: true, ..config_for_signer(&address) };
    assert_eq!(
        verify_cross_chain_message(&mut paused, 1, 7000, &recipient, 500, &data, &signature, recovery_id),
        Err(UniversalNftError::ProgramPaused)
    );
}

#[test]
fn cross_chain_message_rejects_wrong_signer_without_nonce_update() {
    let (_sk, _pk, address) = test_keypair(31);
    let (other_sk, _opk, _oaddr) = test_keypair(32);
    let mut config = config_for_signer(&address);
    let recipient = [4u8; 20];
    let data = [5u8; 8];
    let digest = SignatureUtils::hash_message(1, 7000, &recipient, 500, &data);
    let (signature, recovery_id) = sign_digest(&other_sk, &digest);
    assert_eq!(
        verify_cross_chain_message(&mut config, 1, 7000, &recipient, 500, &data, &signature, recovery_id),
        Err(UniversalNftError::InvalidTssSignature)
    );
    assert_eq!(config.nonce, 0);
}

#[test]
fn batch_verification_short_circuits_on_first_failure() {
    let (sk, _pk, address) = test_keypair(41);
    let (other_sk, _opk, _oaddr) = test_keypair(42);
    let config = config_for_signer(&address);

    let digests: Vec<[u8; 32]> = (0u8..3).map(|i| [i + 1; 32]).collect();
    let mut signatures = Vec::new();
    let mut recovery_ids = Vec::new();
    for digest in &digests {
        let (signature, recovery_id) = sign_digest(&sk, digest);
        signatures.push(signature);
        recovery_ids.push(recovery_id);
    }
    assert_eq!(batch_verify_signatures(&config, &digests, &signatures, &recovery_ids), Ok(()));

    // Replace the middle signature with another signer's.
    let (bad_signature, bad_recovery_id) = sign_digest(&other_sk, &digests[1]);
    let mut tampered_signatures = signatures.clone();
    let mut tampered_ids = recovery_ids.clone();
    tampered_signatures[1] = bad_signature;
    tampered_ids[1] = bad_recovery_id;
    assert_eq!(
        batch_verify_signatures(&config, &digests, &tampered_signatures, &tampered_ids),
        Err(UniversalNftError::InvalidTssSignature)
    );
}

#[test]
fn batch_verification_rejects_bad_shapes() {
    let (sk, _pk, address) = test_keypair(41);
    let config = config_for_signer(&address);

    let empty: Vec<[u8; 32]> = Vec::new();
    assert_eq!(
        batch_verify_signatures(&config, &empty, &Vec::new(), &Vec::new()),
        Err(UniversalNftError::InvalidMessageFormat)
    );

    let digests: Vec<[u8; 32]> = (0u8..2).map(|i| [i + 1; 32]).collect();
    let (signature, recovery_id) = sign_digest(&sk, &digests[0]);
    assert_eq!(
        batch_verify_signatures(&config, &digests, &vec![signature], &vec![recovery_id, recovery_id]),
        Err(UniversalNftError::InvalidMessageFormat)
    );

    let eleven: Vec<[u8; 32]> = (0u8..11).map(|i| [i + 1; 32]).collect();
    let mut signatures = Vec::new();
    let mut recovery_ids = Vec::new();
    for digest in &eleven {
        let (s, r) = sign_digest(&sk, digest);
        signatures.push(s);
        recovery_ids.push(r);
    }
    assert_eq!(
        batch_verify_signatures(&config, &eleven, &signatures, &recovery_ids),
        Err(UniversalNftError::InvalidMessageFormat)
    );
}

#[test]
fn recover_public_key_returns_signer_address() {
    let (sk, pk64, _address) = test_keypair(51);
    let config = base_config();
    let digest = [6u8; 32];
    let (signature, recovery_id) = sign_digest(&sk, &digest);
    let recovered = recover_public_key(&config, None, &digest, &signature, recovery_id).unwrap();
    assert_eq!(recovered, SignatureUtils::pubkey_to_ethereum_address(&pk64));

    let paused = ProgramConfig { is_paused: true, ..base_config() };
    assert_eq!(
        recover_public_key(&paused, None, &digest, &signature, recovery_id),
        Err(UniversalNftError::ProgramPaused)
    );
    let authority = paused.authority;
    assert!(recover_public_key(&paused, Some(&authority), &digest, &signature, recovery_id).is_ok());
}

#[test]
fn sender_authority_is_checked_against_claimed_sender() {
    let (sk, _pk, address) = test_keypair(61);
    let config = base_config();
    let digest = [2u8; 32];
    let (signature, recovery_id) = sign_digest(&sk, &digest);
    assert_eq!(
        verify_sender_authority(&config, &address, &digest, &signature, recovery_id),
        Ok(())
    );
    let wrong_sender = [0x55u8; 20];
    assert_eq!(
        verify_sender_authority(&config, &wrong_sender, &digest, &signature, recovery_id),
        Err(UniversalNftError::SenderVerificationFailed)
    );
}

#[test]
fn message_format_bounds() {
    assert_eq!(SignatureUtils::validate_message_format(&[1u8; 10]), Ok(true));
    assert_eq!(
        SignatureUtils::validate_message_format(&[]),
        Err(UniversalNftError::InvalidMessageFormat)
    );
    assert_eq!(
        SignatureUtils::validate_message_format(&vec![0u8; 1025]),
        Err(UniversalNftError::InvalidMessageFormat)
    );
    assert_eq!(SignatureUtils::validate_message_format(&vec![0u8; 1024]), Ok(true));
}
