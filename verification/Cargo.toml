[package]
name = "set_host"
version = "0.1.0"
edition = "2021"
publish = false

[dependencies]
http = "1"
tower = "0.5"
tower-layer = "0.3"
