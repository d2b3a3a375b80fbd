[package]
name = "pinentry"
version = "0.1.0"
edition = "2021"
publish = false

[dependencies]
anyhow = "1"
urlencoding = "2"
parking_lot = "0.12"
termion = "4"
ratatui = { version = "0.29", default-features = false, features = ["termion"] }
tui-textarea = { version = "0.7", default-features = false, features = ["termion"] }
