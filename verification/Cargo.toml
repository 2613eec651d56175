[package]
name = "remote_time"
version = "0.1.0"
edition = "2021"
publish = false

[dependencies]
chrono = { version = "0.4", default-features = false, features = ["std"] }
lazy_static = "1"
ureq = { version = "2", default-features = false }
