[package]
name = "esl"
version = "0.1.0"
edition = "2021"
publish = false

[dependencies]
anyhow = "*"
serde = "*"
serde_json = { version = "*", features = ["preserve_order"] }
thiserror = "*"
tokio = { version = "*", features = ["full"] }
tracing = "*"
urlencoding = "*"
