[package]
name = "back"
version = "0.1.0"
edition = "2021"
publish = false

[dependencies]
anyhow = "=1.0.104"
argon2 = { version = "=0.5.3", features = ["std"] }
password-hash = { version = "=0.5.0", features = ["getrandom"] }
axum = { version = "=0.8.9", features = ["multipart"] }
base64 = "=0.22.1"
dotenvy = "=0.15.7"
gix = { version = "=0.75.0", default-features = false, features = ["revision"] }
hex = "=0.4.3"
http = "=1.5.0"
jsonwebtoken = "=9.3.1"
serde = { version = "=1.0.229", features = ["derive"] }
serde_json = { version = "=1.0.154", features = ["raw_value"] }
sha2 = "=0.10.9"
sqlx = { version = "=0.8.6", default-features = false, features = ["postgres", "runtime-tokio", "uuid", "time", "derive"] }
thiserror = "=2.0.21"
time = { version = "=0.3.55", features = ["serde"] }
tokio = { version = "=1.54.1", features = ["full"] }
tokio-util = { version = "=0.7.20", features = ["io"] }
tower = { version = "=0.5.3", features = ["limit"] }
tower-http = { version = "=0.6.11", features = ["cors"] }
tracing = "=0.1.44"
uuid = { version = "=1.29.0", features = ["v4", "serde"] }
