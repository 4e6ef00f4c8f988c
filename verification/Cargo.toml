[package]
name = "vortex"
version = "0.1.0"
edition = "2021"
publish = false

[dependencies]
arc-swap = "*"
crossbeam-queue = "*"
dashmap = "*"
hyper = { version = "*", features = ["client", "http1", "server"] }
hyper-util = { version = "*", features = ["tokio"] }
rustls = "*"
rustls-pemfile = "*"
tokio = { version = "*", features = ["rt-multi-thread", "net", "time", "io-util", "macros", "sync"] }
tokio-rustls = "*"
