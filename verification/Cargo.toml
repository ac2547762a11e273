[package]
name = "ytnav"
version = "0.1.0"
edition = "2021"
publish = false

[dependencies]
crossterm = "*"
curl = "*"
js-sandbox = "*"
ratatui = "*"
serde = { version = "1", features = ["derive"] }
simd-json = "*"
urldecode = "*"
