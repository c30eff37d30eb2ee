[package]
name = "qd"
version = "0.1.0"
edition = "2021"
publish = false

[dependencies]
anyhow = "*"
base58 = "*"
gumdrop = "*"
humantime = "*"
log = "*"
shlex = "*"
stderrlog = "*"
uuid = { version = "*", features = ["v4"] }
