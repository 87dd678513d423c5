[package]
name = "sans_core"
version = "0.1.0"
edition = "2021"
publish = false

[dependencies]
image = { version = "0.25", default-features = false, features = ["jpeg"] }
serde = { version = "1", features = ["derive"] }
toml = "0.8"
thiserror = "2"
serialport = { version = "4", default-features = false }
rscam = "0.5"
clap = { version = "4", features = ["derive"] }
chrono = "0.4"
csv = "1"
serde_json = "1"
