[package]
name = "gallery"
version = "0.1.0"
edition = "2021"
publish = false

[dependencies]
image = { version = "0.24", default-features = false, features = ["png", "jpeg"] }
walkdir = "2"
log = "0.4"
druid = "0.8"
druid-widget-nursery = "0.1"
