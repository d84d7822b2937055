[package]
name = "bar_supervisor"
version = "0.1.0"
edition = "2021"
publish = false

[dependencies]
i3status-rs = { version = "=0.36.1", default-features = false }
clap = "=4.6.7"
env_logger = "=0.11.11"
nix = { version = "=0.31.3", features = ["process", "signal"] }
serde_json = "=1.0.151"
signal-hook = "=0.3.18"
tokio = { version = "=1.53.2", features = ["rt"] }
toml = "=0.8.23"
