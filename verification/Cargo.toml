[package]
name = "messaging_mediator"
version = "0.1.0"
edition = "2021"
publish = false

[dependencies]
affinidi-crypto = { version = "=0.2.6", default-features = false, features = ["jose"] }
affinidi-did-common = "=0.4.4"
affinidi-did-resolver-cache-sdk = { version = "=0.8.43", features = ["network"] }
affinidi-messaging-didcomm = "=0.15.6"
aws-config = { version = "=1.13.0", default-features = false }
aws-sdk-secretsmanager = { version = "=1.123.0", default-features = false }
aws-sdk-ssm = { version = "=1.131.0", default-features = false }
axum = { version = "=0.7.9", features = ["ws"] }
base64 = "=0.22.1"
chrono = { version = "=0.4.45", default-features = false, features = ["now"] }
hostname = "=0.4.2"
http = "=1.5.0"
jsonwebtoken = { version = "=9.3.1", default-features = false }
ring = "=0.17.14"
rkyv = "=0.8.18"
serde = { version = "=1.0.229", features = ["derive"] }
serde_json = "=1.0.154"
sha256 = { version = "=1.6.0", default-features = false }
tokio = { version = "=1.54.1", features = ["rt-multi-thread", "macros", "sync"] }
toml = "=0.8.23"
tower-http = { version = "=0.5.2", features = ["cors"] }
tracing = "=0.1.44"
uuid = { version = "=1.29.0", features = ["v4"] }
