[package]
name = "moon_nix"
version = "0.1.0"
edition = "2021"
publish = false

[dependencies]
extism-pdk = "=1.4.1"
moon_pdk = "=2.3.0"
moon_pdk_api = "=2.3.0"
schematic = "=0.20.12"
serde = { version = "=1.0.229", features = ["derive"] }
