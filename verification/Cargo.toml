[package]
name = "xdevs"
version = "0.1.0"
edition = "2021"
publish = false

[dependencies]
heapless = "0.8"
tokio = { version = "1", default-features = false, features = ["time"] }
embassy-time = "*"
syn = { version = "2", features = ["full"] }
quote = "1"
proc-macro2 = "1"
