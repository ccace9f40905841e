[package]
name = "stadal"
version = "0.1.0"
edition = "2021"
publish = false

[dependencies]
xi-trace = "*"
xi-rpc = "*"
serde = { version = "*", features = ["derive"] }
serde_json = "*"
log = "*"
