[package]
name = "borgbackup"
version = "0.1.0"
edition = "2021"
publish = false

[dependencies]
serde_json = "=1.0.151"
shlex = "=1.1.0"
tokio = { version = "=1.53.2", features = ["process", "io-util", "sync", "rt-multi-thread", "macros"] }
log = "=0.4.34"
env_logger = "=0.11.11"
byte-unit = "=5.2.6"
tempfile = "=3.27.0"
