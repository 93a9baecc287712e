[package]
name = "pwman_desktop"
version = "0.1.0"
edition = "2021"
publish = false

[dependencies]
dirs = "6"
log = "0.4"
reqwest = { version = "0.12", default-features = false }
serde = { version = "1", features = ["derive"] }
tokio = { version = "1", features = ["rt", "time"] }
