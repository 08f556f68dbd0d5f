[package]
name = "universal_nft"
version = "0.1.0"
edition = "2021"
publish = false

[dependencies]
solana-program = "2.2"
sha2 = "*"
bs58 = "*"

[dev-dependencies]
libsecp256k1 = "*"
