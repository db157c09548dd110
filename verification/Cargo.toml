[package]
name = "nesemu"
version = "0.1.0"
edition = "2021"
publish = false

[dependencies]
bitfield = "=0.20.0"
tock-registers = "=0.10.1"
log = "=0.4.34"
spin_sleep = "=1.3.3"
eframe = { version = "=0.27.2", default-features = false, features = ["glow"] }
egui_logger = "=0.4.4"
egui_memory_editor = "=0.2.9"
