[package]
name = "wyndex-test-helpers"
version = "0.1.0"
edition = "2021"
publish = false

[dependencies]
cosmwasm-std = "*"
cw20 = "*"
cw20-base = "*"
cw-controllers = "*"
cw-multi-test = "*"
cw-utils = "*"
thiserror = "*"
anyhow = "*"
serde = { version = "*", features = ["derive"] }
