[package]
name = "pyroscope"
version = "0.1.0"
edition = "2021"
publish = false

[dependencies]
libc = "0.2"
pprof = "*"
reqwest = { version = "0.11", default-features = false }
tokio = { version = "1", features = ["macros", "rt-multi-thread", "sync", "time"] }
