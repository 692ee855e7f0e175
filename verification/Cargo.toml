[package]
name = "federog"
version = "0.1.0"
edition = "2021"
publish = false

[dependencies]
ammonia = "4"
anyhow = "1"
axum = "0.8"
feder-core = "=0.1.0-dev.90"
feder-server = "=0.1.0-dev.90"
feder-vocab = "=0.1.0-dev.90"
html-escape = "0.2"
rand_core = { version = "0.6", features = ["getrandom"] }
rusqlite = { version = "*", features = ["bundled"] }
serde = { version = "1", features = ["derive"] }
serde_json = "1"
tokio = { version = "1", features = ["macros", "net", "rt-multi-thread"] }
tracing = "0.1"
tracing-subscriber = { version = "0.3", features = ["env-filter"] }
url = "2"
