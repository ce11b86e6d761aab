[package]
name = "swimmer"
version = "0.3.0"
edition = "2021"
publish = false

[dependencies]
thread_local = "1"
