[package]
name = "routestack"
version = "0.1.0"
edition = "2021"
publish = false

[dependencies]
indexmap = "1"
rand = { version = "0.8", features = ["small_rng"] }
tokio = { version = "1", features = ["sync"], default-features = false }
