[package]
name = "vors_session"
version = "0.1.0"
edition = "2021"
publish = false

[dependencies]
byteorder = "=1.5.0"
tar = "=0.4.46"
png = "=0.12.0"
image = "=0.19.0"
nalgebra = "=0.17.3"
p3p = "=0.1.0"
visual-odometry-rs = "=0.1.0"
wasm-bindgen = "=0.2.129"
serde-wasm-bindgen = "=0.6.5"
