[package]
name = "tarot_bot"
version = "0.1.0"
edition = "2021"
publish = false

[dependencies]
dotenv = "0.15"
log = "0.4"
pretty_env_logger = "0.4"
reqwest = { version = "0.11", default-features = false, features = ["json", "rustls-tls"] }
serde = { version = "1", features = ["derive"] }
serenity = { version = "0.10", default-features = false, features = ["builder", "cache", "client", "gateway", "http", "model", "utils", "rustls_backend", "unstable_discord_api"] }
tokio = { version = "1", features = ["macros", "rt-multi-thread"] }
