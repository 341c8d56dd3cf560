[package]
name = "nokhwa_core"
version = "0.2.0"
edition = "2021"
publish = false

[dependencies]
async-trait = "0.1"
