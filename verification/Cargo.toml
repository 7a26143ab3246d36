[package]
name = "solana_test_framework"
version = "0.1.0"
edition = "2021"
publish = false

[dependencies]
solana-sdk = "=1.18.26"
solana-program = "=1.18.26"
solana-banks-client = "=1.18.26"
spl-token = "=4.0.3"
spl-associated-token-account = "=2.3.0"
pyth-sdk-solana = "=0.10.6"
borsh = "=1.8.1"
bincode = "=1.3.3"
serde = "=1.0.229"
thiserror = "=1.0.69"
async-trait = "=0.1.92"
futures = "=0.3.34"
