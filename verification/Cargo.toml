[package]
name = "cs2_gsi_webui"
version = "0.1.0"
edition = "2021"
publish = false

[dependencies]
cs2-gsi = "*"
axum = { version = "0.7", features = ["ws"] }
clap = { version = "4", features = ["derive"] }
futures-util = "0.3"
serde = { version = "1", features = ["derive"] }
serde_json = "1"
tokio = { version = "1", features = ["full"] }
tracing = "0.1"
tracing-subscriber = { version = "0.3", features = ["env-filter"] }
