[package]
name = "ora_geom_gui"
version = "0.1.0"
edition = "2021"
publish = false

[dependencies]
url = "2"
serde = { version = "1", features = ["derive"] }
ureq = { version = "2", features = ["json"] }
confy = "0.6"
thiserror = "1"
tracing = "0.1"
tracing-subscriber = "0.3"
eframe = { version = "0.23", default-features = false, features = ["glow"] }
egui = "0.23"
egui_plot = "0.23"
