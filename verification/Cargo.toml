[package]
name = "copper_launcher"
version = "0.1.0"
edition = "2021"
publish = false

[dependencies]
serde = { version = "1", features = ["derive"] }
serde_json = "1"
reqwest = { version = "0.12", features = ["blocking", "json"] }
gtk4 = { version = "*", features = ["v4_10"] }
gio = "*"
glib = "*"
