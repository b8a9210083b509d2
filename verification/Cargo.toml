[package]
name = "lending_instruction"
version = "0.1.0"
edition = "2021"
publish = false

[dependencies]
solana-program = "=5.1.0"
spl-token = { version = "=9.0.0", features = ["no-entrypoint"] }
