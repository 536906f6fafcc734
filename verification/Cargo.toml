[package]
name = "sp_log2"
version = "0.1.0"
edition = "2021"
publish = false

[dependencies]
chrono = "=0.4.45"
log = { version = "=0.4.34", features = ["std"] }
termcolor = "=1.4.1"
termcolor2 = "=0.1.1"
