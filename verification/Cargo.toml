[package]
name = "dxfeed"
version = "0.1.0"
edition = "2021"
publish = false

[dependencies]
anyhow = "*"
crossbeam-channel = "*"
serde = { version = "*", features = ["derive"] }
serde_json = "*"
signal-hook = "*"
thiserror = "*"
widestring = "*"
