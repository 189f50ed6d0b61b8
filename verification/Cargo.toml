[package]
name = "nico"
version = "0.1.0"
edition = "2021"
publish = false

[dependencies]
regex = "=1.13.1"
sha2 = "=0.10.9"
version-compare = "=0.2.1"
hex = "=0.4.3"
x509-parser = { version = "=0.16.0", features = ["verify"] }
chrono = { version = "=0.4.45", default-features = false, features = ["std", "clock", "serde"] }
serde = { version = "=1.0.229", features = ["derive"] }
serde_json = "=1.0.154"
clap = { version = "=4.6.7", features = ["derive"] }
mac_address = { version = "=1.2.1", features = ["serde"] }
