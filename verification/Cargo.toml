[package]
name = "dla_sim"
version = "0.1.0"
edition = "2021"
publish = false

[dependencies]
rand = "0.8"
ratatui = { version = "0.29", default-features = false }
serde = { version = "1", features = ["derive"] }
