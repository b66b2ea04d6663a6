[package]
name = "ambient_fd"
version = "0.1.0"
edition = "2021"
publish = false

[dependencies]
libc = "=0.2.191"
systemd = { version = "=0.10.1", default-features = false }
