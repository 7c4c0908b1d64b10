[package]
name = "gpuproxy"
version = "0.1.0"
edition = "2021"
publish = false

[dependencies]
anyhow = "1"
base64 = "0.13"
chrono = "0.4"
clap = { version = "3.2", features = ["env"] }
crossbeam-channel = "0.5"
crossbeam-utils = "0.8"
diesel = { version = "1.4", features = ["sqlite"] }
filecoin-proofs-api = { version = "*", default-features = false }
forest_address = "0.3"
hex = "0.4"
log = "0.4"
serde = { version = "1", features = ["derive"] }
serde_json = "1"
simplelog = "0.12"
uuid = { version = "1", features = ["v4"] }
