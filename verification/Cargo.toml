[package]
name = "ece_token"
version = "0.1.0"
edition = "2021"
publish = false

[dependencies]
borsh = "0.10"
solana-program = "1.18"
solana-sdk = "1.18"
spl-token = { version = "4.0", default-features = false, features = ["no-entrypoint"] }
thiserror = "1.0"
