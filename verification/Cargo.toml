[package]
name = "nyaa"
version = "0.1.0"
edition = "2021"
publish = false

[dependencies]
scraper = "*"
urlencoding = "*"
url = "*"
serde = { version = "*", features = ["derive"] }
reqwest = { version = "*", default-features = false }
tokio = { version = "*", features = ["sync", "rt", "macros"] }
crossterm = "*"
ratatui = "*"
