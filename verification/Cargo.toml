[package]
name = "deadman-switch-vault"
version = "0.1.0"
edition = "2021"
publish = false

[dependencies]
cosmwasm-std = "1.5"
cosmwasm-schema = "1.5"
cw2 = "1.1"
cw-storage-plus = "1.2"
thiserror = "1"
