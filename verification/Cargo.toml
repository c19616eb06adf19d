[package]
name = "qwiic_mp3_trigger"
version = "0.1.0"
edition = "2021"
publish = false

[dependencies]
i2cdev = "*"
log = "0.4"
