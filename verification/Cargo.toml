[package]
name = "vaults_bridge"
version = "0.1.0"
edition = "2021"
publish = false

[dependencies]
anyhow = "=1.0.104"
log = "=0.4.35"
serde_json = "=1.0.154"
uuid = "=1.29.0"
xous = "=0.9.71"
