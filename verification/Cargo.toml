[package]
name = "tokenmarket"
version = "0.1.0"
edition = "2021"
publish = false

[dependencies]
borsh = { version = "=1.8.1", features = ["derive"] }
num-derive = "=0.4.2"
num-traits = "=0.2.19"
solana-program = "=2.3.0"
spl-token = { version = "=7.0.0", features = ["no-entrypoint"] }
thiserror = "=1.0.69"
