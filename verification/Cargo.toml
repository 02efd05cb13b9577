[package]
name = "crates-tui"
version = "0.1.0"
edition = "2021"
publish = false

[dependencies]
tui-input = "*"
crossterm = "*"
ratatui = "*"
tokio = { version = "*", features = ["rt-multi-thread", "macros", "sync", "time"] }
crates_io_api = "*"
color-eyre = "*"
clap = { version = "*", features = ["derive", "cargo"] }
serde = { version = "*", features = ["derive"] }
serde_with = "*"
strum = { version = "*", features = ["derive"] }
toml = "*"
tracing = "*"
