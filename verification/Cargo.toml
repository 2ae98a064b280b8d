[package]
name = "solar_system"
version = "0.1.0"
edition = "2021"
publish = false

[dependencies]
rand = "0.8"
num-traits = "0.2"
serde = { version = "1", features = ["derive"] }
serde_json = "1"
dotenv = "0.15"
tap = "1"
gset = "1"
getset = "0.1"
