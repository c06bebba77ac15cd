[package]
name = "may_clack"
version = "0.1.0"
edition = "2021"
publish = false

[dependencies]
crossterm = "*"
owo-colors = "*"
rustyline = { version = "*", features = ["derive"] }
unicode-truncate = "*"
is-unicode-supported = "*"
