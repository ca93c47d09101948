[package]
name = "rust-cloud-lab"
version = "0.1.0"
edition = "2021"
publish = false

[dependencies]
uuid = { version = "1", features = ["v4"] }
serde = { version = "1", features = ["derive"] }
serde_json = "1"
axum = "0.8"
tokio = { version = "1", features = ["full"] }
aws-config = "1"
aws-sdk-s3 = "1"
aws-sdk-sqs = "1"
dotenvy = "0.15"
tracing = "0.1"
tracing-subscriber = "0.3"
