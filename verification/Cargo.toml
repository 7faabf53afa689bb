[package]
name = "sqlx_sessions"
version = "0.1.0"
edition = "2021"
publish = false

[dependencies]
uuid = { version = "=1.27.0", features = ["v4"] }
chrono = "=0.4.45"
serde = { version = "*", features = ["derive"] }
serde_json = "*"
sqlx = { version = "=0.9.0", default-features = false, features = ["runtime-tokio", "postgres", "mysql", "sqlite"] }
futures = "*"
parking_lot = "*"
tower-layer = "*"
tower-service = "*"
tower-cookies = "=0.11.0"
http = "*"
pin-project-lite = "*"
