[package]
name = "roster_relay"
version = "0.1.0"
edition = "2021"
publish = false

[dependencies]
rand = "0.8"
dotenv = "0.15"
serenity = "0.12"
tokio = { version = "1", features = ["macros", "rt-multi-thread"] }
