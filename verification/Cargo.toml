[package]
name = "notcat_client"
version = "0.1.0"
edition = "2021"
publish = false

[dependencies]
chrono = "0.4"
jni = "0.20"
libc = "0.2"
nix = { version = "0.29", features = ["socket"] }
