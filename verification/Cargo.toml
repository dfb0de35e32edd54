[package]
name = "manual_seal"
version = "0.1.0"
edition = "2021"
publish = false

[dependencies]
blake2-rfc = "=0.2.18"
futures = { version = "=0.3.34", features = ["compat"] }
jsonrpc-core = "14"
jsonrpc-pubsub = "=14.2.0"
log = "=0.4.35"
parity-scale-codec = "=1.3.7"
schnorrkel = "=0.9.1"
