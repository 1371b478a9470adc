[package]
name = "axum_apcore"
version = "0.1.0"
edition = "2021"
publish = false

[dependencies]
apcore = "*"
apcore-toolkit = "*"
apcore-mcp = "*"
serde = { version = "1", features = ["derive"] }
serde_json = "1"
serde_yaml = "*"
chrono = "0.4"
regex = "1"
uuid = { version = "1", features = ["v4"] }
axum = "0.8"
tokio = { version = "1", features = ["full"] }
clap = { version = "4", features = ["derive", "env"] }
thiserror = "*"
tracing = "0.1"
async-trait = "0.1"
futures = "0.3"
