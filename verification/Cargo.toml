[package]
name = "telegram_bot"
version = "0.8.0"
edition = "2021"
publish = false

[dependencies]
futures = "0.3"
hyper = "0.13"
hyper-tls = "0.4"
telegram-bot-raw = "0.8"
tokio = { version = "0.2", features = ["time"] }
