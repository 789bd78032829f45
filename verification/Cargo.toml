[package]
name = "macloop"
version = "0.1.0"
edition = "2021"
publish = false

[dependencies]
crossbeam-channel = "*"
rubato = "*"
webrtc-audio-processing = "*"
