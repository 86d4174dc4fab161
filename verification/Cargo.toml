[package]
name = "osc_manager"
version = "0.1.0"
edition = "2021"
publish = false

[dependencies]
anyhow = "*"
async-osc = "=0.2.0"
async-std = "*"
clap = { version = "*", features = ["derive"] }
directories = "*"
env_logger = "*"
log = "*"
serde = { version = "*", features = ["derive"] }
sysinfo = "=0.39.6"
tokio = { version = "*", features = ["full"] }
tokio-graceful-shutdown = "=0.20.0"
toml = "=1.1.7"
