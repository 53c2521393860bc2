[package]
name = "idempotency"
version = "0.1.0"
edition = "2021"
publish = false

[dependencies]
actix-web = { version = "4", default-features = false }
actix-web-flash-messages = "*"
anyhow = "1"
serde = { version = "1", features = ["derive"] }
sqlx = { version = "*", default-features = false, features = ["postgres", "runtime-tokio", "uuid", "macros"] }
tracing = "0.1"
uuid = "1"
