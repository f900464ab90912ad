[package]
name = "voice_assistant"
version = "0.1.0"
edition = "2021"
publish = false

[dependencies]
anyhow = "1"
audioadapter-buffers = "*"
clap = { version = "4", features = ["derive", "env"] }
cpal = "*"
dirs = "*"
num_cpus = "1"
parking_lot = "0.12"
ringbuf = "0.4"
rubato = "*"
serde = { version = "1", features = ["derive"] }
tokio = { version = "1", default-features = false, features = ["rt-multi-thread", "macros", "sync", "time", "signal"] }
tracing = "0.1"
