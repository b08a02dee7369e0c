[package]
name = "dtb_node"
version = "0.1.0"
edition = "2021"
publish = false

[dependencies]
libp2p = { version = "0.53", features = ["tokio", "tcp", "tls", "yamux", "gossipsub", "kad", "ping", "request-response", "cbor", "macros", "ed25519"] }
dashmap = "5"
tokio = { version = "1", features = ["full"] }
warp = "0.3"
serde = { version = "1", features = ["derive"] }
serde_json = "1"
clap = { version = "4", features = ["derive"] }
chrono = "0.4"
anyhow = "1"
env_logger = "0.11"
