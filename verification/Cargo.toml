[package]
name = "wol_agent"
version = "0.1.0"
edition = "2021"
publish = false

[dependencies]
anyhow = "*"
log = "*"
wake-on-lan = "*"
embedded-svc = "*"
esp-idf-svc = "*"
esp-idf-sys = "*"
