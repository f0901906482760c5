[package]
name = "market"
version = "0.1.0"
edition = "2021"
publish = false

[dependencies]
cosmwasm-std = "0.16"
cw0 = "0.8"
cw20 = "0.8"
cw721 = "0.8"
cw-storage-plus = "0.8"
schemars = "0.8"
serde = { version = "1", features = ["derive"] }
thiserror = "1"
