[package]
name = "civitdl"
version = "0.1.0"
edition = "2021"
publish = false

[dependencies]
anyhow = "=1.0.104"
clap = { version = "=4.6.7", features = ["derive"] }
directories = "=5.0.1"
dotenvy = "=0.15.7"
env_logger = "=0.10.2"
envy = "=0.4.2"
futures = "=0.3.34"
indicatif = "=0.17.11"
normpath = "=1.5.2"
reqwest = { version = "=0.11.27", features = ["cookies", "json", "stream"] }
serde = { version = "=1.0.229", features = ["derive"] }
serde_derive = "=1.0.229"
serde_json = "=1.0.154"
tokio = { version = "=1.54.1", features = ["macros", "rt-multi-thread"] }
tracing = { version = "=0.1.44", features = ["log"] }

[dev-dependencies]
tempfile = "=3.27.0"
