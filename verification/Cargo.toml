[package]
name = "preserve_backend"
version = "0.1.0"
edition = "2021"
publish = false

[dependencies]
rustc-serialize = "*"
ceph-rust = "*"
