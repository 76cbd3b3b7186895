[package]
name = "voipswitchd"
version = "0.1.0"
edition = "2021"
publish = false

[dependencies]
anyhow = "1"
aya = "0.13"
chrono = "=0.4.45"
clap = { version = "4", features = ["derive"] }
crc32fast = "=1.5.4"
libc = "0.2"
rustyline = "=19.0.0"
serde = { version = "1", features = ["derive"] }
serde_json = "=1.0.154"
tokio = { version = "=1.54.1", features = ["full"] }
tracing = "0.1"
