[package]
name = "woofi_jupiter"
version = "0.1.0"
edition = "2021"
publish = false

[dependencies]
anchor-lang = "=1.2.1"
anyhow = "=1.0.104"
jupiter-amm-interface = "=0.6.1"
pyth-solana-receiver-sdk = "=2.0.0"
serde_json = "=1.0.151"
solana-account-decoder = { version = ">=2, <4.3", features = ["agave-unstable-api"] }
solana-account-decoder-client-types = ">=2, <4.3"
solana-program = "=5.1.0"
solana-sdk = "=5.0.0"
spl-token = "=9.0.0"
thiserror = "=2.0.21"
