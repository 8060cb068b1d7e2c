[package]
name = "spoof_detect"
version = "0.1.0"
edition = "2021"
publish = false

[dependencies]
adafruit_gps = "*"
rppal = "*"
embedded-hal = { version = "0.2", features = ["unproven"] }
nb = "0.1"
void = "1"
sysfs_gpio = "0.6"
