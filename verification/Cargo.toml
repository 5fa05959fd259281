[package]
name = "astraquant"
version = "0.1.0"
edition = "2021"
publish = false

[dependencies]
bincode = "1"
blake3 = "=1.8.7"
clap = { version = "=4.6.7", features = ["derive"] }
serde = { version = "=1.0.229", features = ["derive"] }
serde_json = "=1.0.154"
