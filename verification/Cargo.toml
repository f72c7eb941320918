[package]
name = "mev_share_client"
version = "0.1.0"
edition = "2021"
publish = false

[dependencies]
ethers-core = { version = "2", default-features = false }
ethers-providers = { version = "2", default-features = false, features = ["ws", "rustls"] }
ethers-signers = { version = "2", default-features = false }
reqwest = { version = "0.11", default-features = false, features = ["json"] }
reqwest-eventsource = "0.4"
serde = { version = "1", features = ["derive"] }
serde_json = "1"
tokio = { version = "1", features = ["rt", "macros", "sync", "time"] }
tokio-stream = "0.1"
futures = "0.3"
