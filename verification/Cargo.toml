[package]
name = "valet"
version = "0.1.0"
edition = "2021"
publish = false

[dependencies]
anyhow = "*"
async-trait = "*"
axum = "*"
base64 = "*"
dunce = "*"
futures = "*"
governor = "*"
serde = { version = "*", features = ["derive"] }
serde_json = "*"
thiserror = "*"
tokio = { version = "*", features = ["full"] }
tokio-stream = "*"
toml = "*"
tower-http = { version = "*", features = ["limit", "cors"] }
tracing = "*"
tracing-subscriber = "*"
uuid = { version = "*", features = ["v4"] }
which = "*"

[dev-dependencies]
tempfile = "*"
