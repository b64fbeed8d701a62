[package]
name = "pomod"
version = "0.1.0"
edition = "2021"
publish = false

[dependencies]
notify-rust = "=4.18.2"
rodio = "=0.11.0"
signal = "=0.7.0"
