[package]
name = "rzem_mj_lora"
version = "0.1.0"
edition = "2021"
publish = false

[dependencies]
base64 = "=0.23.1"
dirs = "=7.0.0"
hf-hub = { version = "=1.0.0", features = ["blocking", "rustls-tls"] }
image = { version = "=0.25.10", default-features = false, features = ["png", "jpeg"] }
reqwest = { version = "=0.12.28", default-features = false, features = ["blocking", "json", "rustls-tls"] }
serde = { version = "=1.0.229", features = ["derive"] }
serde_json = "=1.0.151"
sysinfo = "=0.39.6"
