[package]
name = "command_dispatch"
version = "0.1.0"
edition = "2021"
publish = false

[dependencies]
anyhow = "*"
futures-util = "*"
lapin = "*"
serde_json = "*"
tokio = { version = "*", features = ["macros", "rt-multi-thread"] }
twilight-http = "*"
twilight-model = "*"
