[package]
name = "jupiter_dex"
version = "0.1.0"
edition = "2021"
publish = false

[dependencies]
bs58 = "*"
substreams = "*"
substreams-solana = "*"
substreams-entity-change = "*"
