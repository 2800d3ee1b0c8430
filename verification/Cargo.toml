[package]
name = "pgbranch"
version = "0.1.0"
edition = "2021"
publish = false

[dependencies]
anyhow = "*"
clap = { version = "*", features = ["derive"] }
dirs = "*"
env_logger = "*"
git2 = "*"
inquire = "*"
log = "*"
regex = "*"
rpassword = "*"
serde = { version = "*", features = ["derive"] }
serde_yaml = "*"
tokio = { version = "*", features = ["rt", "macros"] }
tokio-postgres = "*"
