[package]
name = "tide_auth"
version = "0.1.0"
edition = "2021"
publish = false

[dependencies]
rust-argon2 = "=0.8.3"
rand = "=0.7.3"
tide = "=0.16.0"
async-std = { version = "=1.13.2", features = ["attributes"] }
async-session = "=2.0.1"
async-sqlx-session = { version = "=0.4.0", default-features = false, features = ["pg", "rustls", "async_std"] }
sqlx = { version = "=0.5.13", features = ["runtime-async-std-rustls", "postgres"] }
askama = "=0.10.5"
serde = { version = "=1.0.229", features = ["derive"] }
