[package]
name = "hyped"
version = "0.1.0"
edition = "2021"
publish = false

[dependencies]
heapless = "=0.8.0"
serde = { version = "=1.0.229", features = ["derive"] }
serde_yml = "=0.0.13"
rust-mqtt = "=0.3.1"
embedded-io-async = "0.6"
rand_core = "=0.6.4"
embassy-time = "=0.5.1"
