[package]
name = "zed_haxe"
version = "0.1.0"
edition = "2021"
publish = false

[dependencies]
zed_extension_api = "=0.3.0"
regex = "=1.13.1"
serde = { version = "=1.0.229", features = ["derive"] }
serde_json = "=1.0.154"
flate2 = "=1.1.10"
zip = { version = "=2.6.1", default-features = false, features = ["deflate"] }
