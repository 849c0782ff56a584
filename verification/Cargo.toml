[package]
name = "script_runner"
version = "0.1.0"
edition = "2021"
publish = false

[dependencies]
which = "=8.0.6"
libc = "=0.2.190"
tokio = { version = "=1.53.2", features = ["process", "io-util", "fs", "rt", "rt-multi-thread", "macros", "sync"] }
tracing = "=0.1.44"
clap = { version = "=4.6.7", features = ["derive"] }
comfy-table = "=8.0.1"
console = "=0.16.6"
serde = { version = "=1.0.229", features = ["derive"] }
marked-yaml = "=0.8.0"
