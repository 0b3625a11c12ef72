[package]
name = "nextui_updater"
version = "0.1.0"
edition = "2021"
publish = false

[dependencies]
egui_sdl2_gl = { version = "=0.31.0", default-features = false }
parking_lot = "=0.12.5"
reqwest = { version = "=0.12.28", default-features = false, features = ["blocking", "json", "rustls-tls"] }
sdl2 = "=0.37.0"
semver = "=1.0.28"
serde = { version = "=1.0.229", features = ["derive"] }
zip = "=2.6.1"
