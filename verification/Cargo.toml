[package]
name = "discv5_cli"
version = "0.1.0"
edition = "2021"
publish = false

[dependencies]
discv5 = { version = "=0.4.1", features = ["libp2p"] }
clap = { version = "=4.6.7", features = ["derive"] }
eyre = "=0.6.14"
hex = "=0.4.3"
libp2p-core = "=0.40.1"
libp2p-identity = { version = "=0.2.14", features = ["secp256k1", "ed25519", "peerid"] }
log = "=0.4.34"
serde = { version = "=1.0.229", features = ["derive"] }
serde_json = "=1.0.151"
simple_logger = "=5.2.0"
tokio = { version = "=1.53.2", features = ["rt-multi-thread", "macros", "signal", "time"] }
