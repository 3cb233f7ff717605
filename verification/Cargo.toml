[package]
name = "webp_converter"
version = "0.1.0"
edition = "2021"
publish = false

[dependencies]
chrono = "0.4"
egui = "0.21"
image = "0.24"
parking_lot = "0.12"
rayon = "1"
sys-info = "0.9"
webp = "0.2"
