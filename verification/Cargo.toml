[package]
name = "hsm_provision"
version = "0.1.0"
edition = "2021"
publish = false

[dependencies]
rand = "0.7"
regex = "1"
clap = "2"
dialoguer = "0.5"
pkcs11 = "*"
yubihsm = { version = "*", features = ["usb"] }
