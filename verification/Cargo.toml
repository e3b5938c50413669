[package]
name = "auditor"
version = "0.1.0"
edition = "2021"
publish = false

[dependencies]
parity-scale-codec = { version = "=3.7.5", features = ["derive"] }
scale-info = { version = "=2.11.6", features = ["derive"] }
jsonrpc-core = "=18.0.0"
jsonrpc-derive = "=18.0.0"
jsonrpsee = { version = "=0.16.3", features = ["server", "macros"] }
serde = { version = "=1.0.229", features = ["derive"] }
