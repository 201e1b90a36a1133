[package]
name = "redis_http"
version = "0.1.0"
edition = "2021"
publish = false

[dependencies]
base64 = "=0.23.1"
quick-xml = "=0.42.0"
url = "=2.5.8"
redis = "=1.7.1"
reqwest = { version = "=0.13.5", default-features = false }
warp = { version = "=0.4.3", features = ["server"] }
tokio = { version = "=1.53.2", features = ["rt-multi-thread"] }

[dev-dependencies]
serde_json = "=1.0.151"
