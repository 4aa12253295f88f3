[package]
name = "zingolib_ffi"
version = "0.1.0"
edition = "2021"
publish = false

[dependencies]
base64 = "*"
http = "*"
json = "*"
rustls = { version = "*", default-features = false, features = ["ring", "std"] }
