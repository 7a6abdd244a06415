[package]
name = "server_config"
version = "0.1.0"
edition = "2021"
publish = false

[dependencies]
blake3 = "1"
getopts = "0.2"
log = { version = "0.4", features = ["serde", "std"] }
quinn = "0.8"
rustls = "0.20"
serde = { version = "1", features = ["derive"] }
serde_json = "1"
thiserror = "1"
