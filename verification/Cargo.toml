[package]
name = "property_nft"
version = "0.1.0"
edition = "2021"
publish = false

[dependencies]
soroban-sdk = { version = "*", features = ["testutils"] }
stellar-tokens = "*"
stellar-macros = "*"
