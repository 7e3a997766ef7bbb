[package]
name = "sts_credentials_provider"
version = "0.1.0"
edition = "2021"
publish = false

[dependencies]
aws-config = "0.51"
aws-sdk-sts = "0.21"
aws-types = "0.51"
tokio = { version = "1", features = ["sync"] }
tracing = "0.1"
