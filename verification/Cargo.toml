[package]
name = "corofuture"
version = "0.1.0"
edition = "2021"
publish = false

[dependencies]
corosensei = "=0.3.4"
pin-project-lite = "=0.2.17"
pollster = "*"
