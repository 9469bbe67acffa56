[package]
name = "kiro_account_manager"
version = "0.1.0"
edition = "2021"
publish = false

[dependencies]
serde = { version = "=1.0.229", features = ["derive"] }
serde_json = "=1.0.154"
sha2 = "=0.10.9"
uuid = { version = "=1.29.1", features = ["v4"] }
getrandom = { version = "=0.4.3", features = ["std"] }
dirs = "=5.0.1"
tokio = { version = "=1.54.1", features = ["rt", "rt-multi-thread", "macros"] }
log = "=0.4.35"
winreg = "=0.52.0"
