[package]
name = "lunaris_notification_daemon"
version = "0.1.0"
edition = "2021"
publish = false

[dependencies]
ammonia = "4"
base64 = "0.22"
bytes = "1"
chrono = "0.4"
dirs = "5"
html-escape = "0.2"
image = { version = "0.25", default-features = false, features = ["png"] }
libc = "0.2"
notify = "6"
prost = "0.13"
serde = { version = "1", features = ["derive"] }
serde_json = "1"
sqlx = { version = "0.8", default-features = false, features = ["runtime-tokio", "sqlite"] }
thiserror = "2"
tokio = { version = "1", features = ["rt-multi-thread", "macros", "net", "io-util", "sync", "time", "signal"] }
toml = "0.8"
tracing = "0.1"
tracing-subscriber = { version = "0.3", features = ["env-filter"] }
uuid = { version = "1", features = ["v4"] }
zbus = { version = "5", default-features = false, features = ["tokio"] }
