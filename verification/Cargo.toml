[package]
name = "adhan"
version = "0.1.0"
edition = "2021"
publish = false

[dependencies]
chrono = "0.4"
clap = { version = "4", features = ["derive"] }
directories-next = "2"
log = "0.4"
rand = "0.8"
rodio = "0.17"
salah = "*"
serde = { version = "1", features = ["derive"] }
serde_yaml = "0.9"
simplelog = "0.12"
thiserror = "1"
