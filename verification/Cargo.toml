[package]
name = "binder"
version = "0.1.0"
edition = "2021"
publish = false

[dependencies]
url = "2"
tempfile = "3"
eyre = "0.6"
tracing = "0.1"
