[package]
name = "steelseries_apex_oled"
version = "0.1.0"
edition = "2021"
publish = false

[dependencies]
rusb = "*"
embedded-graphics-core = "*"
