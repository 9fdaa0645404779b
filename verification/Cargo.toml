[package]
name = "cardreader"
version = "0.1.0"
edition = "2021"
publish = false

[dependencies]
pcsc = "=2.9.0"
enigo = { version = "=0.6.1", features = ["serde"] }
serde = { version = "=1.0.229", features = ["derive"] }
serde_json = "=1.0.151"

[dev-dependencies]
hex = "=0.4.3"
