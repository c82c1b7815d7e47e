[package]
name = "sdscan"
version = "0.1.0"
edition = "2021"
publish = false

[dependencies]
embassy-net = { version = "=0.9.1", features = ["tcp", "proto-ipv4", "medium-ethernet"] }
embassy-sync = "=0.8.0"
embassy-time = "=0.5.1"
embedded-hal = "=1.0.0"
embedded-hal-bus = "=0.1.0"
embedded-io-async = "=0.7.0"
embedded-sdmmc = "=0.8.2"
static_cell = "=2.1.1"
