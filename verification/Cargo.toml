[package]
name = "easy_archive"
version = "0.1.0"
edition = "2021"
publish = false

[dependencies]
tar = "=0.4.46"
zip = "=8.6.0"
flate2 = "=1.1.10"
liblzma = { version = "=0.4.8", features = ["static"] }
bzip2-rs = "=0.1.2"
ruzstd = "=0.9.0"
zstd = "=0.14.0"
sevenz-rust2 = "=0.23.0"
time = "=0.3.55"
path-clean = "=1.0.1"

[dev-dependencies]
bzip2 = "=0.6.1"
