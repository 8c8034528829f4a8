[package]
name = "keypeek"
version = "0.1.0"
edition = "2021"
publish = false

[dependencies]
qmk-via-api = { version = "=0.10.1", default-features = false }
zmk-studio-api = { version = "=0.6.1", default-features = false }
egui-phosphor = { version = "=0.14.0" }
