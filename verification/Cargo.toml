[package]
name = "sparkle_interactions"
version = "0.1.0"
edition = "2021"
publish = false

[dependencies]
twilight-model = "0.15"
twilight-http = "0.15"
twilight-gateway = "0.15"
twilight-cache-inmemory = "0.15"
twilight-util = { version = "0.15", features = ["builder"] }
twilight-validate = "0.15"
twilight-interactions = "0.15"
tokio = { version = "1", features = ["macros", "rt-multi-thread"] }
anyhow = "1"
dotenvy = "0.15"
futures-util = "0.3"
tracing = "0.1"
tracing-journald = "*"
tracing-log = "*"
tracing-subscriber = { version = "0.3", features = ["env-filter"] }
