[package]
name = "flv_demux"
version = "0.1.0"
edition = "2021"
publish = false

[dependencies]
bytes = "1"
arc-swap = "1"
tracing = "0.1"
