[package]
name = "wicked_waifus_handlers"
version = "0.1.0"
edition = "2021"
publish = false

[dependencies]
rand = "0.9"
tracing = "0.1"
