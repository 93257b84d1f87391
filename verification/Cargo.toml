[package]
name = "wq_server"
version = "0.1.0"
edition = "2021"
publish = false

[dependencies]
actix-cors = "0.7"
actix-web = { version = "4", default-features = false }
anyhow = "=1.0.104"
apalis = { version = "=0.4.9", features = ["postgres", "extensions", "expose"] }
apalis-sql = { version = "=0.4.9", features = ["postgres"] }
axum = "=0.7.9"
chrono = "=0.4.45"
clap = { version = "=4.6.7", features = ["derive", "env"] }
dashmap = "=5.5.3"
diesel = { version = "=2.1.6", default-features = false, features = ["postgres_backend", "chrono", "uuid", "serde_json"] }
diesel-async = { version = "=0.4.1", features = ["postgres", "deadpool"] }
pavex_matchit = "=0.7.5"
serde = { version = "=1.0.229", features = ["derive"] }
serde_json = "=1.0.154"
thiserror = "=1.0.69"
tokio = { version = "=1.54.1", features = ["full"] }
tracing = "=0.1.44"
tracing-subscriber = "=0.3.23"
ulid = "=1.2.1"
utoipa = "=4.2.3"
utoipa-swagger-ui = { version = "=10.0.2", features = ["vendored"] }
uuid = { version = "=1.29.0", features = ["v7"] }
