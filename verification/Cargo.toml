[package]
name = "copy_daemon"
version = "0.1.0"
edition = "2021"
publish = false

[dependencies]
uuid = { version = "*", features = ["v4"] }
anyhow = "*"
daemonize = "*"
serde = { version = "*", features = ["derive"] }
serde_json = "*"
threadpool = "*"
toml = "*"
