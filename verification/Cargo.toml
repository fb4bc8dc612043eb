[package]
name = "torboxhole"
version = "0.1.0"
edition = "2021"
publish = false

[dependencies]
chrono = { version = "*", features = ["serde"] }
eyre = "*"
futures-util = "*"
log = "*"
pretty_env_logger = "*"
r2d2 = "*"
r2d2_sqlite = "*"
reqwest = { version = "*", default-features = false, features = ["json", "multipart", "stream", "rustls-tls"] }
rusqlite = { version = "*", features = ["bundled"] }
sanitize-filename = "*"
serde = { version = "*", features = ["derive"] }
serde_json = "*"
tokio = { version = "*", features = ["full"] }
tokio-cron-scheduler = "*"
tokio-stream = { version = "*", features = ["fs"] }
toml = "*"
zip = { version = "*", default-features = false, features = ["deflate"] }
