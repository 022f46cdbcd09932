[package]
name = "invoice"
version = "0.1.0"
edition = "2021"
publish = false

[dependencies]
uuid = "1"
cosmwasm-std = "1"
cosmwasm-storage = "1"
cw2 = "1"
provwasm-std = "1"
schemars = "0.8"
serde = { version = "1", features = ["derive"] }
