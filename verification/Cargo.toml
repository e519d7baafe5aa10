[package]
name = "lr35902"
version = "0.1.0"
edition = "2021"
publish = false

[dependencies]
indexmap = "*"
crossterm = "0.25"
tui = "0.19"
