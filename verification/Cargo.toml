[package]
name = "swap_core"
version = "0.1.0"
edition = "2021"
publish = false

[dependencies]
ethers = { version = "2.0", default-features = false, features = ["abigen", "ws"] }
serde_json = "1.0"
anyhow = "1.0"
lazy_static = "1.4"
