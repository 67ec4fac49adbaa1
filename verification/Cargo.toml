[package]
name = "tts_gateway"
version = "0.1.0"
edition = "2021"
publish = false

[dependencies]
ssml = "*"
anyhow = "*"
axum = "*"
clap = { version = "*", features = ["derive", "env"] }
once_cell = "*"
serde = { version = "*", features = ["derive"] }
tokio = { version = "*", features = ["full"] }
tracing = "*"
tracing-subscriber = "*"
