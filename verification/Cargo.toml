[package]
name = "tapir"
version = "0.1.0"
edition = "2021"
publish = false

[dependencies]
chrono = "0.4"
clap = "2.34"
dotenv = "0.15"
futures = "0.3"
include_dir = "0.7"
json_value_merge = "*"
log = "0.4"
pretty_env_logger = "0.4"
rocket = { version = "0.5", features = ["json"] }
serde = { version = "1", features = ["derive"] }
serde_json = "1"
toml = "0.5"
webbrowser = "0.8"
