[package]
name = "rt_map"
version = "0.1.0"
edition = "2021"
publish = false

[dependencies]
rt_ref = "=0.1.3"
