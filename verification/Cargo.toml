[package]
name = "dap"
version = "0.1.0"
edition = "2021"
publish = false

[dependencies]
anyhow = "1"
dap-types = "0.0.1"
futures = "0.3"
parking_lot = "0.12"
serde = { version = "1", features = ["derive"] }
serde_json = "1"
smol = "2"
