[package]
name = "ping_fox"
version = "0.1.0"
edition = "2021"
publish = false

[dependencies]
socket2 = { version = "=0.5.10", features = ["all"] }
rand = "=0.8.8"
dns-lookup = "=2.1.1"

[dev-dependencies]
pnet_packet = "=0.34.0"
