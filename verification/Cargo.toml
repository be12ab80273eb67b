[package]
name = "tui_screens"
version = "0.1.0"
edition = "2021"
publish = false

[dependencies]
crossterm = "=0.28.1"
ratatui = "=0.29.0"

[dev-dependencies]
tui-input = { version = "=0.14.0", default-features = false }
