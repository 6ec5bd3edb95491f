[package]
name = "newsletter_api"
version = "0.1.0"
edition = "2021"
publish = false

[dependencies]
actix-web = { version = "4", default-features = false, features = ["macros"] }
aes-gcm = "=0.10.3"
anyhow = "1"
base64 = "=0.22.1"
captcha = "*"
chrono = "0.4"
markdown = "=1.0.0"
rand = "=0.8.8"
secrecy = { version = "=0.8.0", features = ["serde"] }
serde = { version = "1", features = ["derive"] }
sqlx = { version = "*", default-features = false, features = ["postgres", "runtime-tokio", "uuid", "chrono", "derive"] }
tracing = "0.1"
uuid = { version = "=1.29.0", features = ["v4", "serde"] }
