[package]
name = "oxi8_cpu"
version = "0.1.0"
edition = "2021"
publish = false

[dependencies]
base64 = "=0.10.1"
cpal = "=0.8.2"
die = "=0.2.0"
kiss3d = "0.35"
nalgebra = "0.30"
quicksilver = { version = "=0.3.22", default-features = false }
rand = "=0.7.3"
stdweb = "=0.4.20"
