[package]
name = "egui_mpv_glow"
version = "0.33.0"
edition = "2021"
publish = false

[dependencies]
anyhow = "1"
crossbeam = "=0.8.5"
eframe = { version = "=0.33.3", default-features = false, features = ["glow", "x11"] }
egui = { version = "=0.33.3", default-features = false }
egui_glow = { version = "=0.33.3", default-features = false }
glow = "=0.16.0"
libmpv = "=2.0.1"
libmpv-sys = "=3.1.0"
log = "0.4"
parking_lot = "0.12"
