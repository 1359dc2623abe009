[package]
name = "runciv"
version = "0.1.0"
edition = "2021"
publish = false

[dependencies]
actix-toolbox = { version = "=0.13.1", features = ["ws", "logging", "session-all-drivers"] }
actix-web = "=4.18.1"
base64 = "=0.22.1"
bytes = "=1.12.1"
bytestring = "=1.5.1"
chrono = "=0.4.45"
clap = { version = "=4.6.7", features = ["derive"] }
log = "=0.4.34"
rorm = { version = "=0.6.5", features = ["tokio", "rustls", "cli"] }
serde = { version = "=1.0.229", features = ["derive"] }
serde_json = "=1.0.154"
tokio = { version = "=1.54.1", features = ["macros", "rt-multi-thread", "sync", "time"] }
toml = "=1.1.8"
uuid = { version = "=1.29.0", features = ["v4", "serde"] }
