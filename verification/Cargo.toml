[package]
name = "iroh_transport"
version = "0.1.0"
edition = "2021"
publish = false

[dependencies]
libp2p = { version = "=0.57.1", default-features = false, features = ["ed25519"] }
iroh = { version = "=1.4.1", default-features = false, features = ["tls-ring"] }
actor-helper = { version = "=0.2.1", default-features = false, features = ["tokio"] }
either = "=1.19.0"
futures = "=0.3.34"
tokio = { version = "=1.54.1", features = ["io-util", "macros", "rt", "sync"] }
tracing = "=0.1.44"
