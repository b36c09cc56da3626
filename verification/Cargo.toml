[package]
name = "dd_sidecar"
version = "0.1.0"
edition = "2021"
publish = false

[dependencies]
http = "=1.5.0"
rand = "=0.8.8"
nix = { version = "=0.29.0", features = ["user", "process"] }
zwohash = "=0.1.2"
base64 = "=0.22.1"
serde = { version = "=1.0.229", features = ["derive"] }
serde_json = "=1.0.154"
libc = "=0.2.191"
