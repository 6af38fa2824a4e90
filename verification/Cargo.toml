[package]
name = "hvtt"
version = "0.1.1"
edition = "2021"
publish = false

[dependencies]
dirs = "6"
serde = { version = "1", features = ["derive"] }
serde_json = "1"
parking_lot = "0.12"
