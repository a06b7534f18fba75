[package]
name = "sensecap_indicator"
version = "0.1.0"
edition = "2021"
publish = false

[dependencies]
anyhow = "1"
esp-idf-hal = "*"
esp-idf-svc = "*"
esp-idf-sys = "*"
log = "0.4"
rand = "0.8"
