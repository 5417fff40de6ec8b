[package]
name = "ssh_server"
version = "0.1.0"
edition = "2021"
publish = false

[dependencies]
tokio = { version = "=1.53.2", features = ["sync", "rt-multi-thread", "macros", "time", "net", "io-util"] }
russh = "=0.64.1"
ratatui = "=0.30.2"
crossterm = "=0.29.0"
reqwest = { version = "=0.13.5", default-features = false, features = ["json"] }
serde_json = "=1.0.151"
rand = "=0.10.3"
rand_core = "=0.10.1"
log = "=0.4.34"
env_logger = { version = "=0.11.11", default-features = false }
color-eyre = { version = "=0.6.5", default-features = false }
