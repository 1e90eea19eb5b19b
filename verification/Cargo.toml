[package]
name = "paynow"
version = "0.1.0"
edition = "2021"
publish = false

[dependencies]
sha2 = "=0.10.9"
reqwest = { version = "=0.13.5", default-features = false }
url = "=2.5.8"
uuid = "=1.27.0"
time = "=0.3.55"
rust_decimal = "=1.43.0"
celes = "=2.8.2"
thiserror = "=2.0.21"
serde = { version = "=1.0.229", features = ["derive"] }
serde_urlencoded = "=0.7.1"
