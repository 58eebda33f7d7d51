[package]
name = "syla_gateway"
version = "0.1.0"
edition = "2021"
publish = false

[dependencies]
uuid = { version = "*", features = ["v4"] }
chrono = "*"
tokio = { version = "*", features = ["full"] }
tonic = "*"
prost = "*"
prost-types = "*"
axum = "*"
tower-http = { version = "*", features = ["cors", "limit", "trace"] }
serde = { version = "*", features = ["derive"] }
tracing = "*"
tracing-subscriber = { version = "*", features = ["env-filter"] }
anyhow = "*"
thiserror = "*"
tokio-stream = "*"
