[package]
name = "ignis"
version = "0.1.0"
edition = "2021"
publish = false

[dependencies]
rustyline = { version = "14", default-features = false }
serde = { version = "1", features = ["derive"] }
thiserror = "1"
nix = "0.26"
libc = "0.2"
