[package]
name = "stake_program"
version = "0.1.0"
edition = "2021"
publish = false

[dependencies]
solana-sdk = "=1.18.26"
solana-program-runtime = "=1.18.26"
solana-config-program = "=1.18.26"
bincode = "=1.3.3"
