[package]
name = "redis_codec"
version = "0.1.0"
edition = "2021"
publish = false

[dependencies]
serde = { version = "*", features = ["derive"] }
serde_json = { version = "*", features = ["preserve_order"] }
redis = "*"

[dev-dependencies]
serde_yaml = "*"
