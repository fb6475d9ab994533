[package]
name = "monado_gui"
version = "0.1.0"
edition = "2021"
publish = false

[dependencies]
ansi-parser = "=0.8.0"
confy = "=0.5.1"
dirs = "=4.0.0"
eframe = { version = "=0.20.1", default-features = false, features = ["glow"] }
egui = { version = "=0.20.1", default-features = false }
libc = "=0.2.191"
native-dialog = "=0.6.4"
nix = "=0.26.4"
rustc-hash = "=1.1.0"
serde = { version = "=1.0.229", features = ["derive"] }
subprocess = "=0.2.15"
