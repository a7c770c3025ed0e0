[package]
name = "frame_handoff"
version = "0.1.0"
edition = "2021"
publish = false

[dependencies]
lyon = "=0.14.2"
