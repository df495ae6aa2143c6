[package]
name = "evscript"
version = "0.1.0"
edition = "2021"
publish = false

[dependencies]
clap = "*"
dyon = "*"
evdev = "*"
nix = { version = "*", features = ["poll", "user", "fs"] }
rusty-sandbox = "*"
serde = { version = "*", features = ["derive"] }
serde_derive = "*"
toml = "*"
