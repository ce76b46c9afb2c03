[package]
name = "claritty"
version = "0.1.0"
edition = "2021"
publish = false

[dependencies]
eframe = { version = "0.33", default-features = false, features = ["default_fonts", "glow", "x11"] }
nix = { version = "0.30", features = ["fs", "process", "term"] }
sysinfo = "0.37"
