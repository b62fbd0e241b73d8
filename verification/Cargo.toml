[package]
name = "rusty_hooks"
version = "0.1.0"
edition = "2021"
publish = false

[dependencies]
tokio = { version = "=1.53.2", features = ["sync", "rt-multi-thread", "time", "macros"] }
notify = "=8.2.0"
clap = { version = "=4.6.7", features = ["derive"] }
serde = { version = "=1.0.229", features = ["derive"] }
serde_yaml = "=0.9.34"
serde_json = "=1.0.151"
log = "=0.4.34"
log4rs = "=1.4.0"
fs2 = "=0.4.3"
directories = "=6.0.0"
chrono = "=0.4.45"
futures = "=0.3.34"
async-process = "=2.5.0"
