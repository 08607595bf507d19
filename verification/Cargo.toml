[package]
name = "mifare_access"
version = "0.1.0"
edition = "2021"
publish = false

[dependencies]
heapless = "0.8"
mfrc522 = "*"
usb-device = "*"
usbd-serial = "*"
embedded-hal = "*"
embedded-hal-bus = "*"
rp235x-hal = "*"
