[package]
name = "tg_avatar_changer_bot"
version = "0.1.0"
edition = "2021"
publish = false

[dependencies]
image = "=0.25.10"
rand = "=0.10.3"
tokio = { version = "=1.53.2", features = ["rt-multi-thread", "macros", "time", "sync", "fs"] }
reqwest = { version = "=0.13.5", default-features = false, features = ["json", "query"] }
serde = { version = "=1.0.229", features = ["derive"] }
serde_json = "=1.0.151"
tempfile = "=3.27.0"
tdlib-rs = "=1.4.0"
config = "=0.15.27"
log = "=0.4.34"
pretty_env_logger = "=0.5.0"
humantime-serde = "=1.1.1"
thiserror = "=2.0.21"
