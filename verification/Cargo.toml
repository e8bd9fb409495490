[package]
name = "book_manager"
version = "0.1.0"
edition = "2021"
publish = false

[dependencies]
uuid = { version = "=1.29.0", features = ["v4"] }
redis = { version = "=0.25.5", features = ["tokio-comp"] }
sqlx = { version = "=0.7.4", default-features = false, features = ["runtime-tokio", "postgres", "uuid", "chrono"] }
garde = { version = "=0.18.0", default-features = false }
bcrypt = "=0.15.1"
thiserror = "=1.0.69"
axum = "=0.7.9"
tokio = { version = "=1.54.1", features = ["full"] }
tracing = "=0.1.44"
tracing-subscriber = { version = "=0.3.23", features = ["env-filter"] }
anyhow = "=1.0.104"
async-trait = "=0.1.92"
chrono = { version = "=0.4.45", default-features = false, features = ["clock"] }
serde = { version = "1", features = ["derive"] }
