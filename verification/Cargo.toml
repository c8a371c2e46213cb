[package]
name = "vehicle_sim"
version = "0.1.0"
edition = "2021"
publish = false

[dependencies]
fastrand = "2"
noise = "0.7"
