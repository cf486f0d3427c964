[package]
name = "chat_core"
version = "0.1.0"
edition = "2021"
publish = false

[dependencies]
uuid = { version = "=1.29.0", features = ["v4", "serde"] }
serde = { version = "=1.0.229", features = ["derive"] }
serde_json = "=1.0.154"
actix = "=0.13.5"
actix-web = { version = "=4.18.1", default-features = false, features = ["macros", "ws"] }
actix-web-actors = "=4.3.1"
actix-cors = "=0.7.2"
tokio = { version = "=1.54.1", features = ["rt-multi-thread", "macros", "time"] }
sqlx = { version = "=0.8.6", default-features = false, features = ["postgres", "runtime-tokio", "uuid", "chrono", "derive"] }
tonic = "=0.12.3"
prost = "=0.13.5"
chrono = { version = "=0.4.45", features = ["serde"] }
log = "=0.4.34"
env_logger = "=0.11.11"
dotenvy = "=0.15.7"
futures = "=0.3.34"
jsonwebtoken = "=9.3.1"
