[package]
name = "fanout"
version = "0.1.0"
edition = "2021"
publish = false

[dependencies]
tokio = { version = "*", features = ["sync", "macros", "rt-multi-thread", "net"] }
serde_json = "*"
serde = { version = "*", features = ["derive"] }
axum = { version = "*", features = ["ws"] }
futures-util = "*"
