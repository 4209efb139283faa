[package]
name = "pommo"
version = "0.1.0"
edition = "2021"
publish = false

[dependencies]
color-eyre = "0.6"
crossterm = "0.29"
notify-rust = "4"
ratatui = "0.30"
