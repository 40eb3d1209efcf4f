[package]
name = "s2a4c"
version = "0.1.0"
edition = "2021"
publish = false

[dependencies]
async-channel = "2"
scc = "2"
thiserror = "1"
tokio = { version = "1", features = ["macros", "rt", "rt-multi-thread", "sync", "time"] }
uuid = { version = "1", features = ["v4"] }
