[package]
name = "stable_vault"
version = "0.1.0"
edition = "2021"
publish = false

[dependencies]
cosmwasm-bignumber = "2.2"
cosmwasm-std = "0.16"
cw20 = "0.8"
cw-storage-plus = "0.8"
moneymarket = "0.3"
schemars = "0.8"
serde = { version = "1.0", default-features = false, features = ["derive"] }
