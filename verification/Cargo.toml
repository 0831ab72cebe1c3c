[package]
name = "sirix_shell"
version = "0.1.0"
edition = "2021"
publish = false

[dependencies]
clap = { version = "=4.6.7", features = ["derive"] }
rustyline = "=14.0.0"
serde_json = "=1.0.151"
ureq = { version = "=2.12.1", features = ["json"] }
