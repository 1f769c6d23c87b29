[package]
name = "clipd"
version = "0.1.0"
edition = "2021"
publish = false

[dependencies]
arboard = "3"
axum = { version = "0.8", features = ["multipart"] }
clap = { version = "4", features = ["derive", "env"] }
image = { version = "0.25", default-features = false, features = ["bmp", "gif", "jpeg", "png", "tiff", "webp"] }
serde = { version = "1", features = ["derive"] }
serde_urlencoded = "0.7"
tokio = { version = "1", features = ["macros", "net", "rt-multi-thread", "signal", "sync"] }
tracing = "0.1"
tracing-subscriber = { version = "0.3", features = ["env-filter"] }
