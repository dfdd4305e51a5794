[package]
name = "hodlvoice"
version = "0.1.0"
edition = "2021"
publish = false

[dependencies]
anyhow = "1"
cln-grpc = "*"
cln-plugin = "*"
cln-rpc = "*"
hex = "0.4"
lightning-invoice = "*"
log = "0.4"
parking_lot = "0.12"
serde_json = "1"
tokio = { version = "1", features = ["fs", "io-std", "macros", "rt", "sync", "time"] }
tonic = "*"
