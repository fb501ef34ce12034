[package]
name = "pm_service"
version = "0.1.0"
edition = "2021"
publish = false

[dependencies]
actix-cors = "=0.7.2"
actix-multipart = { version = "=0.7.2", default-features = false }
actix-web = { version = "=4.18.1", default-features = false, features = ["macros"] }
actix-web-httpauth = "=0.8.3"
argon2 = { version = "=0.5.3", features = ["std"] }
chrono = "=0.4.45"
dotenv = "=0.15.0"
futures = "=0.3.34"
futures-util = "=0.3.34"
jsonwebtoken = { version = "=9.3.1", default-features = false }
mime_guess = "=2.0.5"
serde = { version = "=1.0.229", features = ["derive"] }
serde_json = "=1.0.154"
sqlx = { version = "=0.8.6", default-features = false, features = ["runtime-tokio", "mysql", "postgres", "macros"] }
tokio = { version = "=1.54.1", features = ["macros", "rt-multi-thread", "fs", "io-util"] }
tokio-util = { version = "=0.7.20", features = ["codec"] }
urlencoding = "=2.1.3"
uuid = { version = "=1.29.0", features = ["v4"] }
