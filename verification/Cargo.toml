[package]
name = "zalo_core"
version = "0.1.0"
edition = "2021"
publish = false

[dependencies]
hmac = "*"
sha2 = "*"
serde = { version = "*", features = ["derive"] }
tracing = "*"
tracing-subscriber = { version = "*", features = ["env-filter", "json"] }
