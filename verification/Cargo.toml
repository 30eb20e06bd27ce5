[package]
name = "tweetboat"
version = "0.1.0"
edition = "2021"
publish = false

[dependencies]
anyhow = "1"
regex = "1"
serde = { version = "1", features = ["derive"] }
tokio = { version = "1", features = ["macros", "rt-multi-thread", "time"] }
toml = "*"
tracing = "0.1"
tracing-subscriber = "0.3"
twilight-gateway = "0.16"
twilight-http = "0.16"
twilight-model = "0.16"
