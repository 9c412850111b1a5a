[package]
name = "clap_library"
version = "0.1.0"
edition = "2021"
publish = false

[dependencies]
anyhow = "*"
clap-sys = "*"
libloading = "*"
serde = { version = "*", features = ["derive"] }
