[package]
name = "resto"
version = "0.1.0"
edition = "2021"
publish = false

[dependencies]
anyhow = "*"
arboard = "=3.6.1"
chrono = "=0.4.45"
lazy_static = "*"
ratatui = "=0.28.1"
reqwest = { version = "=0.13.5", features = ["cookies"] }
reqwest_cookie_store = "=0.10.0"
serde = { version = "*", features = ["derive"] }
serde_json = "=1.0.151"
tokio = { version = "*", features = ["rt", "rt-multi-thread", "sync", "macros"] }
tracing = "*"
tracing-error = "*"
tracing-subscriber = { version = "*", features = ["env-filter"] }
tui-textarea = "=0.6.1"
uuid = { version = "=1.27.0", features = ["v4"] }
