[package]
name = "psyops_assessment"
version = "0.1.0"
edition = "2021"
publish = false

[dependencies]
chrono = { version = "=0.4.45", default-features = false, features = ["clock", "std"] }
genpdf = "=0.2.0"
eframe = { version = "=0.32.3", default-features = false, features = ["glow", "x11"] }
egui = { version = "=0.32.3", default-features = false }
