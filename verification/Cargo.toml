[package]
name = "nix_ptsname_r_shim"
version = "0.2.0"
edition = "2021"
publish = false

[dependencies]
nix = { version = "*", default-features = false, features = ["term", "fs"] }
