[package]
name = "yclass_process"
version = "0.1.0"
edition = "2021"
publish = false

[dependencies]
memflex = { version = "=0.8.4", features = ["external"] }
libloading = "=0.9.0"
