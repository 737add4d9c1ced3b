[package]
name = "cuba_ims"
version = "0.1.0"
edition = "2021"
publish = false

[dependencies]
uuid = { version = "1", features = ["v4"] }
serde = { version = "1", features = ["derive"] }
serde_json = "1"
time = { version = "0.3", features = ["formatting", "serde"] }
dotenvy = "0.15"
anyhow = "1"
tracing = "0.1"
tracing-subscriber = { version = "0.3", features = ["env-filter", "json"] }
rust_decimal = "1"
axum = "0.7"
tokio = { version = "1", features = ["rt-multi-thread", "macros"] }
sqlx = { version = "0.8", default-features = false, features = ["runtime-tokio", "postgres", "time", "rust_decimal", "json", "migrate"] }
tower-http = { version = "0.5", features = ["cors", "trace", "timeout", "compression-gzip"] }
moka = { version = "0.12", features = ["future"] }
utoipa = "4"
async-trait = "0.1"
validator = { version = "0.18", features = ["derive"] }
