[package]
name = "token_auth"
version = "0.1.0"
edition = "2021"
publish = false

[dependencies]
rust-argon2 = "*"
jsonwebtoken = "9"
serde_json = "1"
serde = { version = "1", features = ["derive"] }
rand = "0.8"
chrono = { version = "0.4", default-features = false, features = ["clock", "serde"] }
actix-web = { version = "4", default-features = false, features = ["macros"] }
actix-files = "0.6"
sqlx = { version = "*", default-features = false, features = ["postgres", "runtime-tokio"] }
anyhow = "1"
dotenv = "*"
env_logger = "*"
log = "0.4"
thiserror = "1"
