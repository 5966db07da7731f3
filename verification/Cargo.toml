[package]
name = "edge"
version = "0.1.0"
edition = "2021"
publish = false

[dependencies]
futures = "0.3"
libp2p = { version = "*", features = ["tokio", "tcp", "quic", "noise", "yamux", "gossipsub", "kad", "identify", "macros"] }
log = "0.4"
rand = "0.9"
tokio = { version = "1", features = ["macros", "rt-multi-thread", "time"] }
tracing-subscriber = { version = "0.3", features = ["env-filter"] }
