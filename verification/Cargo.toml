[package]
name = "mod_installer"
version = "0.1.0"
edition = "2021"
publish = false

[dependencies]
reqwest = { version = "0.12", default-features = false }
rfd = { version = "0.15", default-features = false, features = ["xdg-portal", "tokio"] }
tokio = { version = "1", features = ["rt-multi-thread", "fs"] }
