[package]
name = "webidentity"
version = "0.1.0"
edition = "2021"
publish = false

[dependencies]
ed25519-dalek = "*"
hex = "*"
lol_html = "*"
sha2 = "*"
thiserror = "*"
url = "*"
