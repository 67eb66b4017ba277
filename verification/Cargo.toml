[package]
name = "sumi"
version = "0.1.0"
edition = "2021"
publish = false

[dependencies]
anyhow = "1"
bytemuck = { version = "1", features = ["derive"] }
clap = { version = "4", features = ["derive"] }
dirs = "5"
env_logger = "0.11"
log = "0.4"
notify = "6"
pollster = "0.3"
serde = { version = "1", features = ["derive"] }
spectrum-analyzer = "1"
toml = "0.8"
tracing = "0.1"
tracing-appender = "0.2"
tracing-log = "0.2"
tracing-subscriber = { version = "0.3", features = ["env-filter"] }
