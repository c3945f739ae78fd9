[package]
name = "maa_tgbot"
version = "0.1.0"
edition = "2021"
rust-version = "1.95"
publish = false

[dependencies]
uuid = { version = "=1.27.0", features = ["v4"] }
base64 = "=0.22.1"
axum = "=0.8.9"
clap = { version = "=4.6.7", features = ["derive"] }
dptree = "=0.5.1"
once_cell = "=1.21.4"
serde = { version = "=1.0.229", features = ["derive"] }
serde_json = "=1.0.151"
takecell = "=0.1.1"
teloxide = { version = "=0.17.0", features = ["macros"] }
tokio = { version = "=1.53.2", features = ["full"] }
tracing = "=0.1.44"
tracing-appender = "=0.2.5"
tracing-subscriber = "=0.3.23"
