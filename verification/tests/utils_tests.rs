use universal_nft::errors::UniversalNftError;
use universal_nft::signature::SignatureUtils;
use universal_nft::utils::{
    ComputeUtils, CrossChainUtils, MetadataUtils, OperationType, RentUtils,
};

#[test]
fn test_generate_token_id() {
    let mint: [u8; 32] = core::array::from_fn(|i| (i as u8).wrapping_mul(31).wrapping_add(7));
    let block_number = 12345;
    let timestamp = 1640995200;

    let token_id = SignatureUtils::generate_token_id(&mint, block_number, timestamp);
    assert!(!token_id.is_empty());
    assert!(token_id.len() > 10);
}

#[test]
fn token_id_is_base58_of_sha256() {
    let mint = [1u8; 32];
    let block_number: u64 = 99;
    let timestamp: i64 = 1_700_000_000;

    let mut preimage = Vec::new();
    preimage.extend_from_slice(&mint);
    preimage.extend_from_slice(&block_number.to_le_bytes());
    preimage.extend_from_slice(&timestamp.to_le_bytes());
    let digest: [u8; 32] = <sha2::Sha256 as sha2::Digest>::digest(&preimage).into();
    let expected = bs58::encode(digest).into_string();

    assert_eq!(SignatureUtils::generate_token_id(&mint, block_number, timestamp), expected);
}

#[test]
fn test_validate_name() {
    assert!(MetadataUtils::validate_name("My NFT").is_ok());
    assert!(MetadataUtils::validate_name("").is_err());
    assert!(MetadataUtils::validate_name(&"a".repeat(50)).is_err());
}

#[test]
fn test_validate_symbol() {
    assert!(MetadataUtils::validate_symbol("NFT").is_ok());
    assert!(MetadataUtils::validate_symbol("").is_err());
    assert!(MetadataUtils::validate_symbol("NFT!@#").is_err());
}

#[test]
fn test_validate_uri() {
    assert!(MetadataUtils::validate_uri("https://example.com/metadata.json").is_ok());
    assert!(MetadataUtils::validate_uri("ipfs://QmHash").is_ok());
    assert!(MetadataUtils::validate_uri("invalid://uri").is_err());
    assert!(MetadataUtils::validate_uri("").is_err());
}

#[test]
fn name_validation_edges() {
    assert_eq!(MetadataUtils::validate_name(&"a".repeat(32)), Ok(true));
    assert_eq!(
        MetadataUtils::validate_name(&"a".repeat(33)),
        Err(UniversalNftError::InvalidTokenName)
    );
    assert_eq!(
        MetadataUtils::validate_name("tab\tname"),
        Err(UniversalNftError::InvalidTokenName)
    );
}

#[test]
fn symbol_validation_edges() {
    assert_eq!(MetadataUtils::validate_symbol(&"A".repeat(16)), Ok(true));
    assert_eq!(
        MetadataUtils::validate_symbol(&"A".repeat(17)),
        Err(UniversalNftError::InvalidTokenSymbol)
    );
    assert_eq!(MetadataUtils::validate_symbol("abc123XYZ"), Ok(true));
}

#[test]
fn uri_validation_edges() {
    assert_eq!(MetadataUtils::validate_uri("ar://tx"), Ok(true));
    assert_eq!(MetadataUtils::validate_uri("http://x"), Ok(true));
    let long_uri = format!("https://{}", "a".repeat(200));
    assert_eq!(MetadataUtils::validate_uri(&long_uri), Err(UniversalNftError::InvalidMetadataUri));
}

#[test]
fn chain_id_allowlist() {
    for chain_id in [7000u64, 7001, 1, 5, 56, 97] {
        assert_eq!(CrossChainUtils::validate_chain_id(chain_id), Ok(true));
    }
    assert_eq!(
        CrossChainUtils::validate_chain_id(2),
        Err(UniversalNftError::InvalidChainId)
    );
}

#[test]
fn recipient_length_rules() {
    assert_eq!(CrossChainUtils::validate_recipient(&[0u8; 20]), Ok(true));
    assert_eq!(CrossChainUtils::validate_recipient(&[0u8; 32]), Ok(true));
    assert_eq!(
        CrossChainUtils::validate_recipient(&[0u8; 19]),
        Err(UniversalNftError::InvalidRecipient)
    );
    assert_eq!(
        CrossChainUtils::validate_recipient(&[]),
        Err(UniversalNftError::InvalidRecipient)
    );
}

#[test]
fn gas_limit_window() {
    assert_eq!(CrossChainUtils::validate_gas_limit(21000), Ok(true));
    assert_eq!(CrossChainUtils::validate_gas_limit(10_000_000), Ok(true));
    assert_eq!(
        CrossChainUtils::validate_gas_limit(20999),
        Err(UniversalNftError::InsufficientGasLimit)
    );
    assert_eq!(
        CrossChainUtils::validate_gas_limit(10_000_001),
        Err(UniversalNftError::InsufficientGasLimit)
    );
}

#[test]
fn compute_unit_budgets() {
    assert_eq!(ComputeUtils::calculate_compute_units(OperationType::MintNft), 50_000);
    assert_eq!(ComputeUtils::calculate_compute_units(OperationType::TransferNft), 20_000);
    assert_eq!(ComputeUtils::calculate_compute_units(OperationType::BurnNft), 30_000);
    assert_eq!(ComputeUtils::calculate_compute_units(OperationType::CrossChainCall), 100_000);
    assert_eq!(ComputeUtils::calculate_compute_units(OperationType::VerifySignature), 40_000);
    assert_eq!(ComputeUtils::calculate_compute_units(OperationType::UpdateMetadata), 25_000);
    assert_eq!(ComputeUtils::check_compute_budget(), Ok(true));
}

#[test]
fn rent_exemption_is_linear_in_size() {
    assert_eq!(RentUtils::calculate_rent_exemption(0), 0);
    assert_eq!(RentUtils::calculate_rent_exemption(100), 696_000);
}
