[package]
name = "cpmenu"
version = "0.1.0"
edition = "2021"
publish = false

[dependencies]
anyhow = "1"
env_logger = "0.11"
gdk = "0.18"
glib = "0.18"
gtk = "0.18"
log = "0.4"
serde = { version = "1", features = ["derive"] }
serde_json = "1"
