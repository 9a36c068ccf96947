[package]
name = "auction"
version = "0.1.0"
edition = "2021"
publish = false

[dependencies]
borsh = "=0.9.3"
solana-program = "=1.6.28"
spl-token = { version = "=3.1.1", features = ["no-entrypoint"] }
