[package]
name = "rust_plotter"
version = "0.1.0"
edition = "2021"
publish = false

[dependencies]
futures = "0.3"
itertools = "0.10"
quaternion = "1"
rand = "0.8"
serde = { version = "1", features = ["derive"] }
tokio = { version = "1", features = ["time"] }
