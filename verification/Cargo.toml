[package]
name = "clad"
version = "0.1.0"
edition = "2021"
publish = false

[dependencies]
anyhow = "*"
axum = "*"
clap = { version = "*", features = ["derive"] }
env_logger = "*"
etcetera = "*"
fs2 = "*"
futures = "*"
log = "*"
once_cell = "*"
reqwest = { version = "*", default-features = false, features = ["json", "rustls-tls"] }
serde = { version = "*", features = ["derive"] }
serde_json = "*"
tempfile = "*"
thiserror = "*"
tokio = { version = "*", features = ["macros", "rt-multi-thread", "time", "net"] }
toml = "*"
tower-http = { version = "*", features = ["cors"] }
tower_governor = "*"
tracing = "*"
tracing-subscriber = { version = "*", features = ["env-filter"] }
uuid = { version = "*", features = ["v4"] }
