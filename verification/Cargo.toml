[package]
name = "crustchan"
version = "0.1.0"
edition = "2021"
publish = false

[dependencies]
ed25519-dalek = "=1.0.1"
rand = "=0.7.3"
base64 = "=0.22.1"
rust-crypto = "=0.2.36"
chrono = "=0.4.45"
argonautica = "=0.2.0"
uuid = { version = "=1.29.0", features = ["v4"] }
bytes = "=1.12.1"
serde = { version = "=1.0.229", features = ["derive"] }
serde_json = "=1.0.154"
warp = "=0.3.7"
tokio = { version = "=1.54.1", features = ["full"] }
rusoto_core = { version = "=0.48.0", default-features = false, features = ["rustls"] }
rusoto_dynamodb = { version = "=0.48.0", default-features = false, features = ["rustls", "serialize_structs"] }
serde_dynamo = { version = "=4.3.0", features = ["rusoto_dynamodb+0_48"] }
aws_lambda_events = "=0.15.1"
image = { version = "=0.25.10", default-features = false, features = ["png", "jpeg", "gif"] }
utoipa = "=4.2.3"
tracing = "=0.1.44"
tracing-subscriber = { version = "=0.3.23", features = ["env-filter", "json"] }
futures = "=0.3.34"
futures-util = "=0.3.34"
anyhow = "=1.0.104"
lazy_static = "=1.5.1"
unescape = "=0.1.0"
