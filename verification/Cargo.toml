[package]
name = "enigmaduel"
version = "0.1.0"
edition = "2021"
publish = false

[dependencies]
cosmwasm-schema = "1.5"
cosmwasm-std = "1.5"
cw-storage-plus = "1.2"
cw2 = "1.1"
cw20 = "1.1"
serde = { version = "1", default-features = false, features = ["derive"] }
thiserror = "1"
