[package]
name = "away"
version = "0.1.0"
edition = "2021"
publish = false

[dependencies]
anyhow = "1"
chrono = "0.4"
ctrlc = "3"
device_query = "*"
directories = "*"
inputbot = "*"
mouse-rs = "*"
