[package]
name = "cw_tokenfactory"
version = "0.1.0"
edition = "2021"
publish = false

[dependencies]
cosmwasm-std = { version = "=3.0.10", features = ["cosmwasm_2_0"] }
cosmwasm-schema = "=3.0.10"
cw2 = "=3.0.0"
cw-storage-plus = "=3.0.1"
