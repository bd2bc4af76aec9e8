[package]
name = "lightning_js"
version = "0.1.0"
edition = "2021"
publish = false

[dependencies]
ldk-node = "=0.7.1"
bitcoin-payment-instructions = { version = "=0.8.0", features = ["http"] }
napi = { version = "=2.16.17", features = ["napi4"] }
napi-derive = "=2.16.13"
tokio = { version = "=1.54.1", features = ["rt", "rt-multi-thread"] }
