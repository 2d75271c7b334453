[package]
name = "can_session"
version = "0.1.0"
edition = "2021"
publish = false

[dependencies]
flume = "*"
libloading = "*"
eframe = { version = "*", default-features = false, features = ["glow", "x11"] }
egui = "*"
