[package]
name = "logisim_shell"
version = "0.1.0"
edition = "2021"
publish = false

[dependencies]
bincode = "1"
serde = { version = "1", features = ["derive"] }
directories = "5"
log = "0.4"
env_logger = "0.11"
