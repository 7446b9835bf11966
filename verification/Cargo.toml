[package]
name = "vplugin"
version = "0.3.0"
edition = "2021"
publish = false

[dependencies]
zip = { version = "*", default-features = false, features = ["deflate"] }
libloading = "*"
console = "*"
log = "*"
