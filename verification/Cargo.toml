[package]
name = "door_watch"
version = "0.1.0"
edition = "2021"
publish = false

[dependencies]
chrono = "*"
serde = { version = "*", features = ["derive"] }
serde_json = "*"
tokio = { version = "*", features = ["macros", "rt-multi-thread", "sync", "time"] }
serenity = "*"
async-std = "*"
async-h1 = "*"
http-types = "*"
futures = "*"
env_logger = "*"
log = "*"
