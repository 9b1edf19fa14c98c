[package]
name = "tdx"
version = "0.1.0"
edition = "2021"
publish = false

[dependencies]
alloy-sol-types = "=0.8.26"
anyhow = "1"
base64-url = "=4.0.1"
bincode = "=1.3.3"
clap = { version = "4", features = ["derive", "env"] }
dcap-rs = "=0.1.0"
hex = "=0.4.3"
log = "0.4"
num = "0.4"
num-bigint = "0.4"
pem = "=3.0.6"
rand = "=0.8.8"
serde = { version = "1", features = ["derive"] }
serde_json = "1"
ureq = { version = "2", features = ["json"] }
x509-parser = "=0.15.1"
