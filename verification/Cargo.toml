[package]
name = "satysfi_watch"
version = "0.1.0"
edition = "2021"
publish = false

[dependencies]
anyhow = "1"
clap = { version = "3", features = ["derive"] }
notify = "4"
wsl = "*"
wslpath = "*"
