[package]
name = "srvstat"
version = "0.1.0"
edition = "2021"
publish = false

[dependencies]
sysinfo = "*"
paho-mqtt = "*"
anyhow = "*"

[dev-dependencies]
serde_json = "*"
