[package]
name = "logflume"
version = "0.1.0"
edition = "2021"
publish = false

[dependencies]
chrono = "0.4"
core_affinity = "*"
crossbeam-channel = "0.5"
