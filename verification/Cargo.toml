[package]
name = "try_buffer_unordered"
version = "0.1.0"
edition = "2021"
publish = false

[dependencies]
futures-core = "0.3"
futures-sink = "0.3"
pin-project-lite = "0.2"
