[package]
name = "doom-fish-utils"
version = "0.4.1"
edition = "2021"
publish = false

[dependencies]
crossbeam-queue = "0.3"
futures-core = "0.3"
futures-util = "0.3"

[dev-dependencies]
pollster = "0.4"
