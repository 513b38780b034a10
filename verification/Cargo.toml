[package]
name = "readwise_autosave"
version = "0.1.0"
edition = "2021"
publish = false

[dependencies]
anyhow = "1"
async-trait = "0.1"
atproto-identity = "*"
atproto-oauth = "*"
axum = "0.7"
base64 = "0.22"
chrono = { version = "0.4", default-features = false, features = ["std", "clock", "serde"] }
config = { version = "0.14", default-features = false, features = ["toml"] }
dotenvy = "0.15"
rand = "0.9"
regex = "1"
reqwest = { version = "0.12", default-features = false, features = ["json", "rustls-tls"] }
serde = { version = "1", features = ["derive"] }
serde_json = "1"
sqlx = { version = "0.8", default-features = false, features = ["postgres", "runtime-tokio", "derive", "migrate", "uuid", "chrono"] }
thiserror = "1"
tokio = { version = "1", features = ["macros", "rt-multi-thread", "net", "time", "sync"] }
tower-http = { version = "0.5", features = ["trace"] }
tower-sessions = "0.13"
tracing = "0.1"
tracing-subscriber = { version = "0.3", features = ["env-filter"] }
urlencoding = "2"
uuid = { version = "1", features = ["v4", "serde"] }
