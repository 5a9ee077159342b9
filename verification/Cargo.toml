[package]
name = "cmux"
version = "0.1.0"
edition = "2021"
publish = false

[dependencies]
uuid = { version = "=1.29.0", features = ["v4"] }
serde = { version = "=1.0.229", features = ["derive"] }
serde_json = "=1.0.154"
dirs = "=7.0.0"
anyhow = "=1.0.104"
clap = { version = "4", features = ["derive"] }
libc = "0.2"
