[package]
name = "lise"
version = "0.1.0"
edition = "2021"
publish = false

[dependencies]
ash = "=0.38.0"
ash-window = "=0.13.0"
log = "=0.4.34"
raw-window-handle = "*"
simple_logger = "=5.2.0"
simple-window = "=0.2.4"
