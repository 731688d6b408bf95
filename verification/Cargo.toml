[package]
name = "discord_facade"
version = "0.1.0"
edition = "2021"
publish = false

[dependencies]
twilight-http = "=0.11.1"
twilight-model = "=0.11.3"
twilight-validate = "=0.11.1"
twilight-gateway = "=0.11.1"
tokio = { version = "1", features = ["rt"] }
futures = "0.3"
