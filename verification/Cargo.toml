[package]
name = "lobber"
version = "0.1.0"
edition = "2021"
publish = false

[dependencies]
glam = { version = "0.29", features = ["serde"] }
rand = "0.8"
serde = { version = "1", features = ["derive"] }
macroquad = { version = "0.4", default-features = false }
ratatui = "*"
crossterm = "0.29"
