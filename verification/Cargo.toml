[package]
name = "dotilim"
version = "0.1.0"
edition = "2021"
publish = false

[dependencies]
crossbeam = "*"
dirs = "*"
glob = "=0.3.4"
rand = "=0.10.3"
serde = { version = "*", features = ["derive"] }
shellexpand = "=3.1.2"
toml = "*"
zbus = "*"
zvariant = "*"

[dev-dependencies]
fs-err = "*"
nix = { version = "*", features = ["fs", "process"] }
