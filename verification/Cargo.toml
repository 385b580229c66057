[package]
name = "bursar"
version = "0.1.0"
edition = "2021"
publish = false

[dependencies]
chrono = "0.4"
uuid = { version = "1", features = ["v4"] }
toml_edit = "*"
rusqlite = { version = "*", features = ["bundled"] }
crossterm = "*"
ratatui = "*"
thiserror = "*"
anyhow = "1"
