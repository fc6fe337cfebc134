[package]
name = "veil_proxy"
version = "0.1.0"
edition = "2021"
publish = false

[dependencies]
toml = "0.8"
serde = { version = "1", features = ["derive"] }
tokio = { version = "1", features = ["rt-multi-thread", "macros", "io-util"] }
clap = { version = "4", features = ["derive"] }
env_logger = "0.11"
log = "0.4"
