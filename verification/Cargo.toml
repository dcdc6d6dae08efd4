[package]
name = "multi_paxos"
version = "0.1.0"
edition = "2021"
publish = false

[dependencies]
uuid = { version = "1", features = ["v4"] }
bincode = "1"
serde = { version = "1", features = ["derive"] }
serde_derive = "1"
config = "*"
net2 = "0.2"
log = "0.4"
env_logger = "*"
