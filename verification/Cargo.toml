[package]
name = "notes_api"
version = "0.1.0"
edition = "2021"
publish = false

[dependencies]
argon2 = { version = "0.5", features = ["std"] }
axum = "0.7"
chrono = "0.4"
dotenvy = "0.15"
jsonwebtoken = "9"
serde = { version = "1", features = ["derive"] }
serde_json = "1"
sqlx = { version = "0.7", default-features = false, features = ["sqlite", "runtime-tokio", "macros"] }
tokio = { version = "1", features = ["macros", "rt-multi-thread", "net"] }
tower = "0.4"
tower-http = { version = "0.5", features = ["cors"] }
uuid = { version = "1", features = ["v4"] }
