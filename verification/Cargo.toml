[package]
name = "rust_api_framework"
version = "0.1.0"
edition = "2021"
publish = false

[dependencies]
actix-web = "=4.15.0"
argon2 = "=0.5.3"
chrono = { version = "=0.4.45", features = ["serde"] }
env_logger = "0.11"
futures-util = "0.3"
jsonwebtoken = "=9.3.1"
num_cpus = "1"
rand_core = { version = "=0.6.4", features = ["getrandom"] }
serde = { version = "=1.0.229", features = ["derive"] }
serde_json = "=1.0.151"
sqlx = { version = "=0.8.6", default-features = false, features = ["runtime-tokio", "sqlite", "chrono", "macros"] }
