[package]
name = "job_dispatch"
version = "0.1.0"
edition = "2021"
publish = false

[dependencies]
anyhow = "*"
axum = "*"
serde = { version = "*", features = ["derive"] }
serde_json = "*"
tokio = { version = "*", features = ["macros", "net", "process", "rt-multi-thread"] }
tracing = "*"
tracing-subscriber = "*"
