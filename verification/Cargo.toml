[package]
name = "whitespace"
version = "0.1.0"
edition = "2021"
publish = false

[dependencies]
clap = { version = "4", features = ["derive"] }
dirs = "5"
env_logger = "0.11"
eyre = "0.6"
log = "0.4"
num_cpus = "1"
serde = { version = "1", features = ["derive"] }
serde_yaml = "0.9"
