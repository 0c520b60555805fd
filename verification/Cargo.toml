[package]
name = "easycap"
version = "0.1.0"
edition = "2021"
publish = false

[dependencies]
rusb = { version = "0.9.4", features = ["vendored"] }
rusb-async = "0.0.1-alpha"
