[package]
name = "people_cache"
version = "0.1.0"
edition = "2021"
publish = false

[dependencies]
anyhow = "*"
axum = "*"
bytes = "*"
hex = "*"
humantime = "*"
reqwest = { version = "*", default-features = false, features = ["rustls-tls"] }
sha2 = "*"
tokio = { version = "*", features = ["full"] }
tower = "*"
tower-http = { version = "*", features = ["trace", "compression-gzip"] }
tracing = "*"
tracing-subscriber = { version = "*", features = ["env-filter"] }
