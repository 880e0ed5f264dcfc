[package]
name = "certs"
version = "0.1.0"
edition = "2021"
publish = false

[dependencies]
arabic_reshaper = "*"
lettre = { version = "*", default-features = false, features = ["builder", "smtp-transport", "rustls-tls"] }
csv = "*"
serde = { version = "*", features = ["derive"] }
toml = "*"
dirs = "*"
anyhow = "*"
rayon = "*"
skia-safe = { version = "*", features = ["textlayout"] }
