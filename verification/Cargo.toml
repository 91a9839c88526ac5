[package]
name = "codex_process"
version = "0.1.0"
edition = "2021"
publish = false

[dependencies]
owo-colors = "4"
supports-color = "3"
serde = { version = "1", features = ["derive"] }
serde_json = "1"
clap = { version = "4", features = ["derive"] }
clap_complete = "4"
anyhow = "1"
axum = "0.7"
sqlx = { version = "0.8", default-features = false, features = ["runtime-tokio", "sqlite"] }
tokio = { version = "1", features = ["full"] }
