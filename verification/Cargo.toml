[package]
name = "motsdits"
version = "0.1.0"
edition = "2021"
publish = false

[dependencies]
chrono = { version = "0.4", default-features = false, features = ["clock", "std"] }
log = "0.4"
gtk = "0.18"
gtk-layer-shell = "0.8"
tauri = { version = "2", default-features = false, features = ["wry"] }
