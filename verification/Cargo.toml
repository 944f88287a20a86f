[package]
name = "map_auth"
version = "0.1.0"
edition = "2021"
publish = false

[dependencies]
rand = "0.8"
sha2 = "0.10"
totp-rs = { version = "5", features = ["qr"] }
actix-web = "4"
actix-files = "0.6"
actix-identity = "*"
actix-session = { version = "*", features = ["cookie-session"] }
actix-multipart = "*"
sqlx = { version = "0.8", default-features = false, features = ["sqlite", "runtime-tokio"] }
clap = "4"
env_logger = "*"
futures-util = "0.3"
uuid = { version = "1", features = ["v4"] }
chrono = "0.4"
serde = { version = "1", features = ["derive"] }
