[package]
name = "sentry_process"
version = "0.1.0"
edition = "2021"
publish = false

[dependencies]
rbl_circular_buffer = "*"
sentry = { version = "*", default-features = false }
