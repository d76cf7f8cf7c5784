[package]
name = "pv_core"
version = "0.1.0"
edition = "2021"
publish = false

[dependencies]
bincode = "2"
env_logger = "0.11"
log = "0.4"
minifb = "0.27"
quinn = "0.11"
rcgen = "0.13"
serde = { version = "1", features = ["derive"] }
thiserror = "1"
tokio = { version = "1", features = ["macros", "rt-multi-thread", "time"] }
