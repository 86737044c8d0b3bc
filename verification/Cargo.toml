[package]
name = "battery_notify"
version = "0.1.0"
edition = "2021"
publish = false

[dependencies]
clap = { version = "4", features = ["derive"] }
parse_duration = "2"
regex = "1"
