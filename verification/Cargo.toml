[package]
name = "tokentracing"
version = "0.1.0"
edition = "2021"
publish = false

[dependencies]
solana-program = "=5.1.0"
solana-system-interface = { version = "*", features = ["bincode"] }
spl-token = "=9.0.0"
borsh = "=1.8.1"
thiserror = "*"
num-derive = "*"
num-traits = "*"
