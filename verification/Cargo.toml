[package]
name = "goose_agent_core"
version = "0.1.0"
edition = "2021"
publish = false

[dependencies]
serde_json = "=1.0.154"
serde = { version = "=1.0.229", features = ["derive"] }
uuid = { version = "=1.29.0", features = ["v4", "serde"] }
regex = "=1.13.1"
tokio-util = "=0.7.20"
anyhow = "=1.0.104"
async-trait = "=0.1.92"
futures = "=0.3.34"
async-stream = "=0.3.6"
rand = "=0.8.8"
rmcp = "*"
