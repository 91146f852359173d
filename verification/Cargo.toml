[package]
name = "server_cruncher"
version = "0.1.0"
edition = "2021"
publish = false

[dependencies]
chrono = "=0.4.45"
eframe = { version = "=0.23.0", default-features = false, features = ["glow", "persistence", "x11"] }
egui = "=0.23.0"
hcloud = "=0.13.0"
serde = { version = "=1.0.229", features = ["derive"] }
serde-encrypt = "=0.7.0"
serde-encrypt-core = "=0.7.0"
tokio = { version = "=1.54.1", features = ["rt-multi-thread"] }

[dev-dependencies]
regex = "=1.13.1"
