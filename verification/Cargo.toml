[package]
name = "relay_core"
version = "0.1.0"
edition = "2021"
publish = false

[dependencies]
serde_json = "=1.0.151"
serde = { version = "=1.0.229", features = ["derive"] }
teloxide = { version = "=0.17.0", default-features = false, features = ["macros", "rustls"] }
takecell = "=0.1.1"
tokio = { version = "=1.53.2", features = ["rt-multi-thread", "macros", "signal", "sync", "time"] }
zmq = "=0.10.0"
toml = "=0.8.23"
dirs = "=7.0.0"
log = "=0.4.34"
chrono = "=0.4.45"
