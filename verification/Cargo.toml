[package]
name = "seris"
version = "0.1.0"
edition = "2021"
publish = false

[dependencies]
chrono = "0.4"
config = { version = "0.14", default-features = false, features = ["toml"] }
dashmap = "6"
env_logger = "0.11"
log = "0.4"
poise = "0.6"
r2d2 = "0.8"
reqwest = { version = "0.12", default-features = false, features = ["json", "rustls-tls"] }
rusqlite = { version = "0.32", features = ["bundled"] }
serde = { version = "1", features = ["derive"] }
serde_json = "1"
serenity = "0.12"
thiserror = "1"
tokio = { version = "1", features = ["macros", "rt-multi-thread", "net", "time", "io-util", "signal", "sync"] }
