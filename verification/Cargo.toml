[package]
name = "ws_push"
version = "0.1.0"
edition = "2021"
publish = false

[dependencies]
futures = "0.1"
warp = "0.1"

[dev-dependencies]
tokio = "0.1"
