[package]
name = "fretch"
version = "0.1.0"
edition = "2021"
publish = false

[dependencies]
libflate = "*"
sha1 = "0.6"
