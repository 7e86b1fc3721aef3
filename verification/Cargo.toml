[package]
name = "ss_discord_bot"
version = "0.1.0"
edition = "2021"
publish = false

[dependencies]
anyhow = "1"
base64 = "0.22"
chrono = "0.4"
dotenvy = "0.15"
futures = "0.3"
poise = "0.6"
rand = "0.9"
reqwest = { version = "0.12", features = ["json"] }
rig-core = "0.11"
rmcp = { version = "0.1", features = ["client", "server", "transport-sse", "transport-sse-server"] }
serde = { version = "1", features = ["derive"] }
serde_json = "1"
serenity = "0.12"
sqlx = { version = "0.8", features = ["mysql", "runtime-tokio", "chrono"] }
tokio = { version = "1", features = ["full"] }
