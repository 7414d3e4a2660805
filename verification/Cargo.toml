[package]
name = "memcrs"
version = "0.1.0"
edition = "2021"
publish = false

[dependencies]
dashmap = "6"
moka = { version = "0.12", features = ["sync"] }
rand = "*"
clap = { version = "4", features = ["derive"] }
byte-unit = "5"
num_cpus = "1"
log = "0.4"
env_logger = "*"
socket2 = "*"
core_affinity = "*"
bytes = "1"
