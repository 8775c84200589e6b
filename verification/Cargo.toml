[package]
name = "sso_pr"
version = "0.1.0"
edition = "2021"
publish = false

[dependencies]
serde_json = "*"
chrono = "*"
clap = { version = "*", features = ["derive"] }
dirs = "*"
glob = "*"
log = "*"
env_logger = "*"
anyhow = "*"
tokio = { version = "*", features = ["macros", "rt-multi-thread"] }
