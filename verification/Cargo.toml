[package]
name = "oby_desktop"
version = "0.1.0"
edition = "2021"
publish = false

[dependencies]
clap = { version = "4", features = ["cargo"] }
env_logger = "0.11"
log = "0.4"
md5 = "0.7"
percent-encoding = "2"
serde = { version = "1", features = ["derive"] }
serde_json = "1"
toml = "0.8"
