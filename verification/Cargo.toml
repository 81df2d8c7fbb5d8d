[package]
name = "kanban_tui"
version = "0.1.0"
edition = "2021"
publish = false

[dependencies]
uuid = { version = "1", features = ["v4"] }
shell-words = "1"
which = "*"
crossterm = "*"
serde = { version = "1", features = ["derive"] }
serde_json = "1"
toml = "*"
