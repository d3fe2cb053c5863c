[package]
name = "ip_nlroute"
version = "0.1.0"
edition = "2021"
publish = false

[dependencies]
neli = "0.7"
nix = { version = "*", features = ["net"] }
macaddr = "1"
thiserror = "*"
anyhow = "1"
clap = { version = "4", features = ["derive"] }
