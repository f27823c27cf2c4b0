[package]
name = "egfx_server"
version = "0.1.0"
edition = "2021"
publish = false

[dependencies]
ironrdp-core = "*"
ironrdp-dvc = "*"
ironrdp-pdu = "*"
tracing = "*"
