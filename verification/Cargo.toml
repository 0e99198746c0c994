[package]
name = "setuprs"
version = "0.1.0"
edition = "2021"
publish = false

[dependencies]
glob = "0.3"
uuid = { version = "1", features = ["v4"] }
clap = { version = "4", features = ["derive"] }
serde = { version = "1", features = ["derive"] }
toml = "0.8"
