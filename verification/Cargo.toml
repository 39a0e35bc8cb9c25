[package]
name = "fee_alert"
version = "0.1.0"
edition = "2021"
publish = false

[dependencies]
serenity = "0.11"
reqwest = { version = "0.11", default-features = false, features = ["json", "rustls-tls"] }
tokio = { version = "1", features = ["macros", "rt-multi-thread", "time", "signal"] }
serde = { version = "1", features = ["derive"] }
dotenv = "0.15"
log = "0.4"
env_logger = "0.10"
