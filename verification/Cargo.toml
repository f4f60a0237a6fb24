[package]
name = "rusttp"
version = "0.1.0"
edition = "2021"
publish = false

[dependencies]
anyhow = "1"
axum = "0.8"
build-time = "*"
chrono = "0.4"
clap = { version = "4", features = ["derive", "env"] }
dotenvy = "0.15"
fastrace = "*"
fastrace-axum = "*"
fastrace-opentelemetry = "*"
log = "0.4"
once_cell = "1"
opentelemetry = "*"
opentelemetry-otlp = { version = "*", default-features = false, features = ["trace", "http-proto"] }
opentelemetry_sdk = "*"
rand = "0.9"
rust-embed = "8"
serde = { version = "1", features = ["derive"] }
serde_json = "1"
sha1 = "0.10"
sqlx = { version = "0.8", default-features = false, features = ["runtime-tokio", "postgres", "uuid"] }
thiserror = "2"
tokio = { version = "1", features = ["full"] }
tower-http = { version = "0.6", features = ["catch-panic", "trace"] }
tracing = "0.1"
tracing-subscriber = { version = "0.3", features = ["env-filter"] }
uuid = { version = "1", features = ["v4", "v7"] }
