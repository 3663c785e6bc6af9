[package]
name = "future-timed"
version = "0.1.0"
edition = "2021"

[dependencies]
pin-project-lite = "0.2"
