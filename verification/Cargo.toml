[package]
name = "pka_index_backend"
version = "0.1.0"
edition = "2021"
publish = false

[dependencies]
anyhow = "1"
async-trait = "0.1"
axum = "=0.4.8"
chrono = "=0.4.45"
dotenv = "0.15"
http = "=0.2.12"
rand = "=0.8.8"
serde = { version = "1", features = ["derive"] }
sqlx = { version = "=0.5.13", features = ["runtime-tokio-rustls", "sqlite", "macros", "migrate"] }
thiserror = "=1.0.30"
tokio = { version = "1", features = ["full"] }
tower = { version = "0.4", features = ["timeout"] }
tower-http = { version = "0.2", features = ["cors", "trace"] }
tracing = "0.1"
tracing-subscriber = { version = "0.3", features = ["env-filter"] }
