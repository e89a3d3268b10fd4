[package]
name = "unmake"
version = "0.1.0"
edition = "2021"
publish = false

[dependencies]
regex = "=1.13.1"
getopts = "=0.2.24"
serde = { version = "=1.0.229", features = ["derive"] }
serde_json = "=1.0.154"
