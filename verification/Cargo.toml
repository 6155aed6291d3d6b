[package]
name = "cobalt_installer"
version = "0.1.0"
edition = "2021"
publish = false

[dependencies]
zip = "*"
dirs = "*"
reqwest = { version = "*", default-features = false, features = ["blocking", "rustls-tls"] }
