[package]
name = "kernel"
version = "0.4.2"
edition = "2021"
publish = false

[dependencies]
thiserror = "2"
