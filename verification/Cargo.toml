[package]
name = "repellet"
version = "0.1.0"
edition = "2021"
publish = false

[dependencies]
clap = "=4.6.7"
reedline = { version = "=0.52.1", features = ["external_printer"] }
log = "=0.4.34"
tracing = "=0.1.44"
