[package]
name = "usbd_serial"
version = "0.1.0"
edition = "2021"
publish = false

[dependencies]
usb-device = "0.3"
embedded-hal = "0.2"
embedded-io = "0.6"
embedded-io-async = "0.6"
nb = "1"
