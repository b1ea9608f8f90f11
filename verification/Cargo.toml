[package]
name = "rshim"
version = "0.1.0"
edition = "2021"
publish = false

[dependencies]
serde = "1"
serde_json = "1"
chrono = "0.4"
uuid = { version = "1", features = ["v4"] }
oci-spec = "0.6"
libc = "0.2"
nix = "0.23"
url = "2"
log = "0.4"
prctl = "1"
anyhow = "1"
