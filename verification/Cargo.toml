[package]
name = "teaching_markers"
version = "0.1.0"
edition = "2021"
publish = false

[dependencies]
crossbeam = "0.8"
r2r = "0.9"
