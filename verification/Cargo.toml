[package]
name = "fidget"
version = "0.1.0"
edition = "2021"
publish = false

[dependencies]
crossterm = "*"
log = "*"
lsp-types = "*"
tui = { version = "*", default-features = false }
