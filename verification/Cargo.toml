[package]
name = "hnreader"
version = "0.1.0"
edition = "2021"
publish = false

[dependencies]
color-eyre = "*"
ratatui = "*"
reqwest = { version = "*", default-features = false, features = ["json"] }
serde = { version = "*", features = ["derive"] }
tokio = { version = "*", features = ["full"] }
