[package]
name = "libcontainer"
version = "0.1.0"
edition = "2021"
publish = false

[dependencies]
anyhow = "1"
log = "0.4"
nix = { version = "*", features = ["fs"] }
oci-spec = { version = "*", default-features = false, features = ["runtime"] }
