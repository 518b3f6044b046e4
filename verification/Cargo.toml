[package]
name = "term_overlay"
version = "0.1.0"
edition = "2021"
publish = false

[dependencies]
shlex = "*"
crossterm = "*"
ratatui = "*"
portable-pty = "*"
tokio = { version = "*", features = ["sync"], default-features = false }
