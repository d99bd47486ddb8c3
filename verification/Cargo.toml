[package]
name = "wan_ddns"
version = "0.1.0"
edition = "2021"
publish = false

[dependencies]
snmp = "0.2"
ureq = { version = "1", features = ["json"] }
serde = { version = "1", features = ["derive"] }
serde_json = "1"
structopt = "0.3"
log = "0.4"
env_logger = "0.7"
