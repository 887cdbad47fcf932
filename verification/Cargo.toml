[package]
name = "sqldelta"
version = "0.1.0"
edition = "2021"
publish = false

[dependencies]
sqlite = "*"
sqlite3-sys = "*"
