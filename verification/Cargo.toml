[package]
name = "batadv_prometheus"
version = "0.1.0"
edition = "2021"
publish = false

[dependencies]
prometheus = { version = "0.13", default-features = false }
iron = "0.6"
clap = "2"
