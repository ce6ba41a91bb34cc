[package]
name = "amaru"
version = "0.1.0"
edition = "2021"
publish = false

[dependencies]
pallas-addresses = "=1.4.0"
pallas-primitives = "=1.4.0"
pallas-crypto = "=1.4.0"
minicbor = { version = "=2.3.1", features = ["alloc"] }
bumpalo = { version = "=3.20.3", features = ["collections"] }
append-only-vec = "=0.1.10"
serde = { version = "=1.0.229", features = ["derive"] }
thiserror = "=2.0.21"
clap = { version = "=4.6.7", features = ["derive", "env"] }
