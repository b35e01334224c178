[package]
name = "api_weights"
version = "0.1.0"
edition = "2021"
publish = false

[dependencies]
serde_json = "=1.0.151"
log = { version = "=0.4.34", features = ["std"] }
redis = "=1.7.1"
tokio = { version = "=1.53.2", default-features = false, features = ["time", "rt"] }
futures = "=0.3.34"
