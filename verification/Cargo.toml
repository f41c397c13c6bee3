[package]
name = "rustmission"
version = "0.1.0"
edition = "2021"
publish = false

[dependencies]
tokio = { version = "*", features = ["sync", "rt-multi-thread", "macros", "time"] }
url = "*"
anyhow = "*"
crossterm = "*"
ratatui = "*"
serde = { version = "*", features = ["derive"] }
toml = "*"
transmission-rpc = "*"
tui-input = "*"
xdg = "*"
