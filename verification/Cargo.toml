[package]
name = "fin"
version = "0.2.21"
edition = "2021"
publish = false

[dependencies]
im = { version = "=15.1.0", features = ["serde"] }
gtk4 = { version = "=0.9.7", features = ["v4_12"] }
serde = { version = "=1.0.229", features = ["derive"] }
toml = "=0.8.23"
thiserror = "=1.0.69"
clap = "=4.6.7"
anyhow = "=1.0.104"
env_logger = "=0.11.11"
log = "=0.4.35"
dirs = "=5.0.1"
