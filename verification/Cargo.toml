[package]
name = "autogguf"
version = "0.1.0"
edition = "2021"
publish = false

[dependencies]
clap = { version = "4", features = ["derive"] }
futures-util = "0.3"
reqwest = { version = "0.12", features = ["stream"] }
shellexpand = "3"
tokio = { version = "1", features = ["full"] }
