[package]
name = "uds"
version = "0.1.0"
edition = "2021"
publish = false

[dependencies]
libc = "=0.2.191"

[dev-dependencies]
rustix = { version = "0.38", features = ["net", "process"] }
socket2 = { version = "0.5", features = ["all"] }
