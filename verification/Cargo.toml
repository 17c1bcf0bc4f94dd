[package]
name = "url_shortener"
version = "0.1.0"
edition = "2021"
publish = false

[dependencies]
axum = "0.7"
blake3 = { version = "1", features = ["pure"] }
rand = "0.8"
rand_chacha = "0.3"
redis = { version = "0.24", features = ["tokio-comp"] }
scylla = "0.12"
serde = { version = "1", features = ["derive"] }
tokio = { version = "1", features = ["full"] }
