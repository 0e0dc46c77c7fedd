[package]
name = "ntp_clock"
version = "0.1.0"
edition = "2021"
publish = false

[dependencies]
sntpc = "0.3"

[dev-dependencies]
chrono = "*"
