[package]
name = "finance_overview"
version = "0.1.0"
edition = "2021"
publish = false

[dependencies]
uuid = { version = "=1.29.1", features = ["v4"] }
async-session = "=3.0.0"
argon2 = "=0.5.3"
rand = "=0.8.8"
regex-automata = "=0.4.18"
rust-ini = "=0.20.0"
once_cell = "=1.21.4"
log = "=0.4.35"
anyhow = "=1.0.104"
futures = "=0.3.34"
secrecy = { version = "=0.8.0", features = ["serde"] }
serde = { version = "=1.0.229", features = ["derive"] }
tokio = { version = "=1.54.1", features = ["rt-multi-thread", "macros"] }
axum = "=0.7.9"
axum-extra = { version = "=0.9.6", features = ["typed-header"] }
axum-server = { version = "=0.6.0", features = ["tls-rustls"] }
askama = "=0.12.1"
mongodb = "=2.8.2"
async-mongodb-session = { version = "=3.0.0", default-features = false, features = ["tokio-runtime"] }
mail-send = "=0.4.2"
