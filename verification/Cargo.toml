[package]
name = "tic_tac"
version = "0.1.0"
edition = "2021"
publish = false

[dependencies]
tokio = { version = "=1.53.2", features = ["sync", "rt-multi-thread", "macros"] }
chrono = { version = "=0.4.45", features = ["serde"] }
redis = { version = "=1.7.1", features = ["tokio-comp"] }
serde = { version = "=1.0.229", features = ["derive"] }
serde_json = "=1.0.151"
uuid = { version = "=1.27.0", features = ["v4", "serde"] }
actix-web = "=4.15.0"
actix-ws = "=0.4.0"
actix-web-lab = "=0.29.0"
futures-util = "=0.3.34"
anyhow = "=1.0.104"
bcrypt = "=0.19.3"
jsonwebtoken = "=11.1.0"
dotenvy = "=0.15.7"
sqlx = { version = "=0.9.0", features = ["postgres", "runtime-tokio", "uuid", "chrono"] }
