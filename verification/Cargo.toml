[package]
name = "beacon"
version = "0.1.0"
edition = "2021"
publish = false

[dependencies]
ed25519-dalek = { version = "=1.0.1", features = ["serde"] }
rand = "=0.7.3"
bincode = "=1.3.3"
chrono = "0.4"
hex = "0.4"
serde = { version = "1", features = ["derive"] }
async-std = "1"
futures = "0.3"
libp2p = { version = "0.53", default-features = false, features = ["floodsub", "mdns", "tcp", "noise", "yamux", "async-std", "macros"] }
