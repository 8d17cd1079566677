[package]
name = "rcore_gui"
version = "0.1.0"
edition = "2021"
publish = false

[dependencies]
tinybmp = "0.3"
embedded-graphics = "0.7"
device_tree = "1.1"
dtb-walker = "0.1"
virtio-drivers = "0.1"
virtio-input-decoder = "0.1"
log = "0.4"
lazy_static = "1.4"
