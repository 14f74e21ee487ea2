[package]
name = "pika_chat"
version = "0.1.0"
edition = "2021"
publish = false

[dependencies]
actix-web = "4"
sqlx = { version = "0.8", default-features = false, features = ["sqlite", "runtime-tokio"] }
serde = { version = "1", features = ["derive"] }
log = "0.4"
env_logger = "0.11"
dotenvy = "0.15"
utoipa = "5"
