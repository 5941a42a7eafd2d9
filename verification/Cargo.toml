[package]
name = "jack"
version = "0.1.0"
edition = "2021"
publish = false

[dependencies]
jack-sys = { version = "=0.3.4", features = ["dlopen"] }
libc = "=0.2.191"
