[package]
name = "aether_discord"
version = "1.0.0"
edition = "2021"
publish = false

[dependencies]
rand = "0.8"
serenity = "0.12"
tokio = { version = "1", features = ["full"] }
serde = { version = "1", features = ["derive"] }
serde_json = "1"
reqwest = { version = "0.11", default-features = false, features = ["json", "rustls-tls"] }
toml = "0.8"
tracing = "0.1"
tracing-subscriber = { version = "0.3", features = ["env-filter"] }
chrono = "0.4"
dotenv = "0.15"
