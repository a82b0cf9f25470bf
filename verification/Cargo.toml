[package]
name = "mousuo"
version = "0.1.0"
edition = "2021"
publish = false

[dependencies]
uuid = { version = "=1.29.0", features = ["v4"] }
surrealdb = { version = "=3.3.5", default-features = false, features = ["protocol-ws"] }
async-stripe = { version = "=0.41.0", default-features = false, features = ["checkout", "webhook-events", "runtime-tokio-hyper-rustls-webpki"] }
serde = { version = "=1.0.229", features = ["derive"] }
serde_json = "=1.0.154"
chrono = "=0.4.45"
tokio = { version = "=1.54.1", features = ["macros", "rt-multi-thread"] }
