[package]
name = "clipbridge"
version = "0.1.0"
edition = "2021"
publish = false

[dependencies]
atty = "=0.2.14"
clipboard-win = "*"
