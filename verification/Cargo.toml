[package]
name = "cool_admin"
version = "0.1.0"
edition = "2021"
publish = false

[dependencies]
md-5 = "=0.10.6"
uuid = { version = "=1.29.0", features = ["v4"] }
rand = "=0.9.5"
cron = "=0.15.0"
regex = "=1.13.1"
chrono = "=0.4.45"
serde = { version = "=1.0.229", features = ["derive"] }
serde_json = "=1.0.154"
base64 = "=0.22.1"
jsonwebtoken = "=9.3.1"
glob = "=0.3.4"
bson = "=2.15.0"
local-ip-address = "=0.6.13"
url = "2"
