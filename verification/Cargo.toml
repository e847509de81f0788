[package]
name = "bloodhound"
version = "0.1.0"
edition = "2021"
publish = false

[dependencies]
libc = "=0.2.191"
parse_duration = "=2.1.1"
serde = { version = "=1.0.229", features = ["derive"] }
serde_json = "1"
serde_yaml = "=0.9.34"
walkdir = "=2.5.0"
