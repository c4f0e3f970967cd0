[package]
name = "timed_mute"
version = "0.1.0"
edition = "2021"
publish = false

[dependencies]
chrono = "*"
serde = { version = "*", features = ["derive"] }
actix-web = "*"
actix-rt = "*"
actix-cors = "*"
actix-session = { version = "*", features = ["cookie-session"] }
bsky-sdk = "*"
ipld-core = "*"
diesel = { version = "*", features = ["sqlite", "r2d2"] }
libsqlite3-sys = { version = "*", features = ["bundled"] }
dotenvy = "*"
tokio-cron-scheduler = "*"
