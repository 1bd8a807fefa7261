[package]
name = "mediasoup"
version = "0.1.0"
edition = "2021"
publish = false

[dependencies]
serde = { version = "*", features = ["derive"] }
serde_json = "*"
uuid = { version = "*", features = ["v4"] }
async-executor = "*"
async-process = "*"
async-oneshot = "*"
futures-lite = "*"
parking_lot = "*"
log = "*"
