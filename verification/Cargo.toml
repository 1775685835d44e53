[package]
name = "solana_rust_dex"
version = "0.1.0"
edition = "2021"
publish = false

[dependencies]
borsh = "=0.10.4"
clap = "=2.34.0"
solana-clap-utils = "=1.18.26"
solana-program = "=1.18.26"
solana-sdk = "=1.18.26"
spl-associated-token-account = { version = "2", features = ["no-entrypoint"] }
spl-token = { version = "=4.0.3", features = ["no-entrypoint"] }
thiserror = "=1.0.69"
