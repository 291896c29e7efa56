[package]
name = "task_rustler"
version = "0.1.0"
edition = "2021"
publish = false

[dependencies]
anyhow = "1"
chrono = { version = "0.4", features = ["serde"] }
crossbeam = "0.8"
crossterm = "0.25"
icalendar = "*"
rand = "0.9"
ratatui = "0.29"
rusqlite = "*"
serde = { version = "1", features = ["derive"] }
serde_json = "1"
thiserror = "1"
tui = "0.19"
