[package]
name = "instagram_dl"
version = "1.0.0"
edition = "2021"
publish = false

[dependencies]
anyhow = "1"
async-std = { version = "1", features = ["attributes"] }
clap = { version = "*", features = ["derive"] }
colored = "*"
ellipse = "*"
futures = "0.3"
human-panic = "*"
serde = { version = "1", features = ["derive"] }
serde_json = "1"
surf = "2"
url = { version = "2", features = ["serde"] }
