[package]
name = "checkpwn_lib"
version = "0.2.0"
edition = "2021"
publish = false

[dependencies]
hex = "0.4"
sha1 = "0.10"
ureq = "2"
zeroize = "1"
