[package]
name = "whirlpool_dca"
version = "0.1.0"
edition = "2021"
publish = false

[dependencies]
solana-program = "1"
spl-associated-token-account = { version = "2", default-features = false, features = ["no-entrypoint"] }
