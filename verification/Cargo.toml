[package]
name = "fediblog"
version = "0.1.0"
edition = "2021"
publish = false

[dependencies]
activitypub_federation = { version = "0.4", default-features = false, features = ["axum"] }
anyhow = "1"
axum = "0.6"
chrono = "0.4"
serde = { version = "1", features = ["derive"] }
tokio = { version = "1", features = ["macros", "rt-multi-thread"] }
tracing = "0.1"
url = "2"
