[package]
name = "rust_m_queue"
version = "0.1.0"
edition = "2021"
publish = false

[dependencies]
nix = { version = "*", features = ["mqueue", "fs"] }
serde = { version = "1", features = ["derive"] }
bincode = "1"
