[package]
name = "ssh_client"
version = "0.1.0"
edition = "2021"
publish = false

[dependencies]
iced = { version = "0.10", default-features = false }
ssh2 = "0.9"
