[package]
name = "convex_mobile"
version = "0.1.0"
edition = "2021"
publish = false

[dependencies]
convex = "*"
serde_json = "*"
anyhow = "*"
futures = "*"
tokio = { version = "*", features = ["rt-multi-thread"] }
parking_lot = "*"
async-once-cell = "*"
tracing-subscriber = "*"
