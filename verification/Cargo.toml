[package]
name = "msxterm"
version = "0.1.0"
edition = "2021"
publish = false

[dependencies]
clap = { version = "4", features = ["derive"] }
encoding_rs = "0.8"
regex = "1"
rustyline = "*"
serial2 = "0.2"
