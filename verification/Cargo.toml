[package]
name = "router"
version = "0.1.0"
edition = "2021"
publish = false

[dependencies]
http = "0.2"
hyper = "0.14"
