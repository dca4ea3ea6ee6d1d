[package]
name = "cid_registry"
version = "0.1.0"
edition = "2021"
publish = false

[dependencies]
anyhow = "1"
ethers = { version = "2.0.14", default-features = false }
ethers-solc = { version = "2.0.14", default-features = false }
ipfs-api-backend-hyper = "*"
tokio = { version = "1", features = ["macros", "rt-multi-thread", "time"] }
tracing-subscriber = { version = "0.3", default-features = false, features = ["fmt"] }
