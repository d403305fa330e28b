[package]
name = "psvr"
version = "0.1.0"
edition = "2021"
publish = false

[dependencies]
ahrs = "=0.8.0"
byteorder = "=1.5.0"
delta = "=0.2.1"
hidapi = { version = "=2.6.7", default-features = false, features = ["linux-native-basic-udev"] }
nalgebra = "=0.34.2"
