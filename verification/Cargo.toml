[package]
name = "midi_fundsp"
version = "0.1.0"
edition = "2021"
publish = false

[dependencies]
crossbeam-queue = "*"
crossbeam-utils = "*"
anyhow = "*"
cpal = "*"
fundsp = { version = "*", default-features = false, features = ["std"] }
midir = "*"
read_input = "*"
midi-msg = "*"
