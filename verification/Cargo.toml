[package]
name = "ollama_buildpack"
version = "0.1.0"
edition = "2021"
publish = false

[dependencies]
exponential-backoff = "*"
libcnb = "=0.18.0"
libherokubuildpack = "=0.18.0"
serde = { version = "*", features = ["derive"] }
thiserror = "*"
ureq = "*"
