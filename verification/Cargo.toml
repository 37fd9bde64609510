[package]
name = "sanctum_stored_account"
version = "0.1.0"
edition = "2021"
publish = false

[dependencies]
solana-program = "*"
solana-readonly-account = "*"
