[package]
name = "hsr"
version = "0.1.0"
edition = "2021"
publish = false

[dependencies]
heck = "0.3"
openapiv3 = "0.3"
serde_yaml = "0.8"
serde = { version = "1", features = ["derive"] }
proc-macro2 = "1"
quote = "1"
derive_more = "0.99"
failure = "0.1"
actix-http = { version = "*", default-features = false }
actix-web = { version = "*", default-features = false }
actix-rt = "*"
awc = { version = "*", default-features = false }
url = "2"
serde_urlencoded = "*"
futures = "0.3"
futures-core = "0.3"
