[package]
name = "sonicrust"
version = "0.1.0"
edition = "2021"
publish = false

[dependencies]
anyhow = "=1.0.104"
crossterm = "=0.29.0"
dirs = "=6.0.0"
env_logger = { version = "=0.11.11", default-features = false }
futures = "=0.3.34"
fuzzy-matcher = "=0.3.7"
image = { version = "0.25", default-features = false, features = ["jpeg", "png"] }
log = "=0.4.34"
md5 = "=0.7.0"
mpris-server = "=0.9.0"
rand = "=0.8.8"
ratatui = "=0.30.2"
ratatui-image = { version = "*", default-features = false }
reqwest = { version = "=0.12.28", default-features = false, features = ["json"] }
serde = { version = "=1.0.229", features = ["derive"] }
thiserror = "=1.0.69"
tokio = { version = "=1.54.1", features = ["full"] }
toml = "=0.8.23"
tracing = "=0.1.44"
url = "=2.5.8"
