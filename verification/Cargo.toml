[package]
name = "stream_intro"
version = "0.1.0"
edition = "2021"
publish = false

[dependencies]
cpal = "0.15"
iced_native = "0.10"
once_cell = "1"
