[package]
name = "s3p"
version = "0.1.0"
edition = "2021"
publish = false

[dependencies]
http = "0.2"
http-cache-semantics = "1.0"
serde_json = "1"
serde = { version = "1", features = ["derive"] }
toml = "0.7"
clap = { version = "4", features = ["derive"] }
tokio = { version = "1", features = ["full"] }
hyper = { version = "0.14", features = ["full"] }
futures = "0.3"
async-broadcast = "0.5"
dotenvy = "0.15"
tracing = "0.1"
tracing-subscriber = { version = "0.3", features = ["env-filter"] }
