[package]
name = "tor_sub_process"
version = "0.1.0"
edition = "2021"
publish = false

[dependencies]
tokio = { version = "1", features = ["rt-multi-thread", "macros", "process", "time"] }
libc = "0.2"
signal-hook = "0.3"
