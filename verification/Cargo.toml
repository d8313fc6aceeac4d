[package]
name = "rclc"
version = "0.1.0"
edition = "2021"
publish = false

[dependencies]
anyhow = "1"
bunt = "0.2"
chrono = { version = "0.4", features = ["serde"] }
crossterm = "0.27"
dirs = "5"
efcl = "*"
env_logger = "0.10"
log = "0.4"
postcard = { version = "1", features = ["alloc"] }
reqwest = { version = "0.11", default-features = false, features = ["json"] }
rmp-serde = "1"
rocket = { version = "0.5", features = ["json"] }
serde = { version = "1", features = ["derive"] }
serde_json = "1"
structopt = "0.3"
tokio = { version = "1", features = ["macros", "rt-multi-thread", "sync", "time"] }
