[package]
name = "sampling_core"
version = "0.1.0"
edition = "2021"
publish = false

[dependencies]
anyhow = "*"
esp-idf-svc = "*"
esp32-nimble = "*"
log = "*"
