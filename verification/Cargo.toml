[package]
name = "wacky_db"
version = "0.1.0"
edition = "2021"
publish = false

[dependencies]
rand = "0.8"
rusqlite = "0.32"
sqlparser = "0.52"
