[package]
name = "tablify"
version = "0.1.0"
edition = "2021"
publish = false

[dependencies]
calamine = "0.22"
clap = "2"
csv = "1"
encoding_rs = "0.8"
tera = "1"

[dev-dependencies]
zip = { version = "0.6", default-features = false }
