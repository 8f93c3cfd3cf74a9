[package]
name = "matopeli"
version = "0.1.0"
edition = "2021"

[dependencies]
rand = "*"
bracket-lib = { version = "*", default-features = false, features = ["crossterm"] }
