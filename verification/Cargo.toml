[package]
name = "watchman_client"
version = "0.1.0"
edition = "2021"
publish = false

[dependencies]
serde = { version = "*", features = ["derive"] }
serde_bser = "*"
thiserror = "*"
tokio = { version = "*", features = ["io-util", "macros", "net", "process", "rt", "sync"] }
