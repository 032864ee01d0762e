[package]
name = "zene"
version = "0.1.0"
edition = "2021"
publish = false

[dependencies]
anyhow = "=1.0.104"
chrono = "=0.4.45"
clap = { version = "=4.6.7", features = ["derive"] }
dotenv = "=0.15.0"
futures = "=0.3.34"
grep = "*"
ignore = "*"
llm-connector = "=1.4.0"
reqwest = "=0.12.28"
serde = { version = "=1.0.229", features = ["derive"] }
serde_json = "=1.0.154"
tokio = { version = "=1.54.1", features = ["full"] }
toml = "*"
uuid = { version = "=1.29.0", features = ["v4"] }
