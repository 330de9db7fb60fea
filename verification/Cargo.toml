[package]
name = "electrs_json_rpc"
version = "0.1.0"
edition = "2021"
publish = false

[dependencies]
serde_json = "1"
serde = { version = "1", features = ["derive"] }
anyhow = "1"
async-trait = "0.1"
bitcoin = "0.26"
bitcoincore-rpc = "0.13"
futures = "0.3"
log = "0.4"
pin-utils = "0.1"
proc-macro2 = "1"
quote = "1"
rayon = "1"
syn = { version = "1", features = ["full", "extra-traits"] }
thiserror = "1"
tokio = { version = "1", features = ["full"] }
tokio-stream = { version = "0.1", features = ["io-util", "net"] }
