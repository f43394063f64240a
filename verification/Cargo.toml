[package]
name = "apcore-mcp-server"
version = "0.1.0"
edition = "2021"
publish = false

[dependencies]
apcore = "*"
apcore-toolkit = "*"
serde_json = "1"
serde = { version = "1", features = ["derive"] }
uuid = { version = "1", features = ["v4"] }
tokio = { version = "1", features = ["full"] }
tokio-stream = "0.1"
futures = "0.3"
async-trait = "0.1"
axum = "0.8"
hyper = "1"
tracing = "0.1"
thiserror = "2"
clap = { version = "4", features = ["derive"] }
