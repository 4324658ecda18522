[package]
name = "libsystemd"
version = "0.1.0"
edition = "2021"
publish = false

[dependencies]
hmac = "=0.11.0"
libc = "=0.2.191"
nix = "=0.24.3"
serde = { version = "=1.0.229", features = ["derive"] }
sha2 = "=0.9.9"
thiserror = "=1.0.69"
uuid = { version = "=0.8.2", features = ["serde"] }
