[package]
name = "fs_change_notifier"
version = "0.1.0"
edition = "2021"
publish = false

[dependencies]
anyhow = "*"
notify = "*"
tokio = { version = "*", features = ["sync", "time"] }
