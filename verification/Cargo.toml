[package]
name = "network"
version = "0.1.0"
edition = "2021"
publish = false

[dependencies]
actix = "=0.13.5"
anyhow = "=1.0.104"
futures = "=0.3.34"
libp2p = { version = "=0.57.1", default-features = false }
log = "=0.4.35"
tokio = { version = "=1.54.1", features = ["rt"] }
