[package]
name = "rjrn"
version = "0.1.0"
edition = "2021"
publish = false

[dependencies]
chrono = "0.4"
docopt = "1"
log = "0.4"
rustc-serialize = "0.3"
uuid = { version = "1", features = ["v4"] }
