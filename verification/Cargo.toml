[package]
name = "identity_program"
version = "0.1.0"
edition = "2021"
publish = false

[dependencies]
borsh = "0.10"
solana-program = "2"
anchor-lang = "0.31"
anchor-spl = { version = "0.31", default-features = false, features = ["token"] }
