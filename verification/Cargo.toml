[package]
name = "infra_core"
version = "0.1.0"
edition = "2021"
publish = false

[dependencies]
anyhow = "=1.0.104"
async-nats = "=0.50.0"
async-trait = "=0.1.92"
axum = "=0.8.9"
futures-core = "=0.3.34"
futures-util = "=0.3.34"
qdrant-client = "=1.19.0"
sqlx = { version = "=0.8.6", features = ["runtime-tokio", "sqlite", "postgres"] }
thiserror = "=2.0.21"
time = "=0.3.55"
tokio = { version = "=1.53.2", features = ["rt-multi-thread"] }
tower-http = { version = "=0.7.1", features = ["cors", "trace"] }
tower-sessions = "=0.14.0"
tower-sessions-sqlx-store = { version = "=0.15.0", features = ["sqlite", "postgres"] }
tracing-subscriber = { version = "=0.3.23", features = ["env-filter", "fmt"] }
uuid = "=1.27.0"
