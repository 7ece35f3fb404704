[package]
name = "gringotts"
version = "0.1.0"
edition = "2021"
publish = false

[dependencies]
cosmwasm-std = { version = "1", features = ["staking", "stargate"] }
cosmwasm-schema = "1"
cw2 = "1"
cw3 = "1"
cw-storage-plus = "1"
cw-utils = "1"
semver = "1"
serde = { version = "1", features = ["derive"] }
thiserror = "1"
