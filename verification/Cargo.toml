[package]
name = "midilog"
version = "0.1.0"
edition = "2021"
publish = false

[dependencies]
alsa = "*"
log = "*"
pretty_env_logger = "*"
