[package]
name = "observex"
version = "0.1.1"
edition = "2021"
publish = false

[dependencies]
thiserror = "1"
tracing = "0.1"
