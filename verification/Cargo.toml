[package]
name = "shroud_protocol"
version = "0.1.0"
edition = "2021"
publish = false

[dependencies]
blake3 = "1"
