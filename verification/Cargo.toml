[package]
name = "gameweek_engine"
version = "0.1.0"
edition = "2021"
publish = false

[dependencies]
cron = "*"
chrono = "*"
tokio = { version = "*", features = ["rt-multi-thread", "macros", "time"] }
futures = "*"
serde = { version = "*", features = ["derive"] }
serde_json = "*"
surf = { version = "*", default-features = false, features = ["h1-client-rustls"] }
