[package]
name = "proxy_core"
version = "0.1.0"
edition = "2021"
publish = false

[dependencies]
chrono = "=0.4.45"
log = "=0.4.34"
portpicker = "=0.1.1"
serde_json = { version = "=1.0.154", features = ["preserve_order"] }
sha2 = "=0.10.9"
sqlx = { version = "=0.8.6", default-features = false, features = ["sqlite", "runtime-tokio"] }
tokio = { version = "=1.54.1", features = ["sync", "rt-multi-thread", "process", "io-util", "time"] }
uuid = { version = "=1.29.0", features = ["v7"] }
warp = "=0.3.7"
winreg = "0.52"
