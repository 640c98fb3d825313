[package]
name = "gateway_bot"
version = "0.1.0"
edition = "2021"
publish = false

[dependencies]
serenity = "0.12"
tokio = { version = "1", features = ["macros", "rt-multi-thread", "sync", "time"] }
serde = { version = "1", features = ["derive"] }
serde_json = "1"
rand = "0.9"
dotenvy = "0.15"
