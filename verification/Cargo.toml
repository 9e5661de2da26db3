[package]
name = "qpipe"
version = "0.1.0"
edition = "2021"
publish = false

[dependencies]
cron = "*"
rand = "0.8"
chrono = "0.4"
tiny_http = "0.12"
serde = { version = "1", features = ["derive"] }
serde_yaml = "0.9"
surf = { version = "2", default-features = false, features = ["h1-client-rustls"] }
tokio = { version = "1", features = ["macros", "rt-multi-thread"] }
clap = { version = "4", features = ["derive"] }
env_logger = "0.11"
log = "0.4"
futures = "0.3"
