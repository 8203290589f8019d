[package]
name = "scars"
version = "0.1.0"
edition = "2021"
publish = false

[dependencies]
portable-atomic = "1"
critical-section = "1"
static_cell = "2"
