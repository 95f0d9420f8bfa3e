[package]
name = "keybinds"
version = "0.1.0"
edition = "2021"
publish = false

[dependencies]
crossterm = "0.17"
log = "0.4"
rand = "0.5"
