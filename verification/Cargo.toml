[package]
name = "auth_service"
version = "0.1.0"
edition = "2021"
publish = false

[dependencies]
uuid = { version = "1", features = ["v4"] }
rand = "0.9"
sha2 = "0.10"
hex = "0.4"
url = "2"
tokio = { version = "1", features = ["full"] }
axum = "0.7"
sea-orm = { version = "1", default-features = false, features = ["sqlx-postgres", "runtime-tokio-rustls", "macros", "with-chrono", "with-uuid"] }
redis = { version = "0.27", features = ["tokio-comp"] }
reqwest = { version = "0.12", default-features = false, features = ["json", "rustls-tls"] }
serde = { version = "1", features = ["derive"] }
tracing = "0.1"
tracing-subscriber = { version = "0.3", features = ["env-filter"] }
dotenvy = "0.15"
tower-http = { version = "0.5", features = ["cors"] }
utoipa = "4"
async-trait = "0.1"
chrono = "0.4"
thiserror = "1"
validator = { version = "0.18", features = ["derive"] }
