[package]
name = "mirador"
version = "0.1.0"
edition = "2021"
publish = false

[dependencies]
anyhow = "1"
jiff = "0.2"
portable-pty = "*"
ratatui = "*"
serde = { version = "1", features = ["derive"] }
serde_json = "1"
toml = "*"
tui-term = "*"
