[package]
name = "module_hub"
version = "0.1.0"
edition = "2021"
publish = false

[dependencies]
arc-swap = "1"
crossbeam-channel = "0.5"
parking_lot = "0.12"
thiserror = "1"
game-loop = "0.10"
winit = "0.28"
