[package]
name = "gossip"
version = "0.1.0"
edition = "2021"
publish = false

[dependencies]
unicode-width = "*"
libp2p = { version = "*", features = ["tokio", "gossipsub", "mdns", "noise", "tcp", "yamux", "quic", "macros", "ecdsa"] }
tokio = { version = "*", features = ["macros", "rt", "rt-multi-thread", "io-std", "io-util"] }
futures = "*"
termsize = "*"
thiserror = "*"
