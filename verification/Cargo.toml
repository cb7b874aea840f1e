[package]
name = "mesh_bridge"
version = "0.1.0"
edition = "2021"
publish = false

[dependencies]
heapless = "0.7"
tokio = { version = "1", features = ["rt", "macros", "sync", "io-std", "io-util", "time"] }
futures = "0.3"
clap = { version = "4", features = ["derive"] }
log = "0.4"
env_logger = "0.10"
dbus = "0.9"
dbus-crossroads = "0.5"
