[package]
name = "boom"
version = "0.1.0"
edition = "2021"
publish = false

[dependencies]
solana-program = "1.18"
anchor-lang = { version = "0.30.1", features = ["init-if-needed"] }
anchor-spl = "0.30.1"
spl-token-2022 = "3.0"
spl-transfer-hook-interface = "0.6"
spl-tlv-account-resolution = "0.6"
