[package]
name = "infbot"
version = "0.1.0"
edition = "2021"
publish = false

[dependencies]
poise = "0.6"
serenity = "0.12"
sqlx = { version = "0.8", features = ["sqlite", "runtime-tokio", "derive"] }
tokio = { version = "1", features = ["full"] }
futures = "0.3"
posthog-rs = "0.3"
serde_json = "1"
dotenvy = "0.15"
tracing-subscriber = "0.3"
