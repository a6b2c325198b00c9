[package]
name = "xfrm_records"
version = "0.1.0"
edition = "2021"
publish = false

[dependencies]
anyhow = "1"
netlink-packet-utils = "0.5"
serde = { version = "1", features = ["derive"] }
