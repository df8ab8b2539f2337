[package]
name = "backtester"
version = "0.1.0"
edition = "2021"
publish = false

[dependencies]
rand = "0.8"
ringbuf = "0.4"
chrono = "0.4"
csv = "1"
serde = { version = "1", features = ["derive"] }
rayon = "1"
