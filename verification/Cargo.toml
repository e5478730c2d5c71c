[package]
name = "xtools"
version = "0.1.1"
edition = "2021"
publish = false

[dependencies]
clap = "4"
convert_case = "0.6"
csv = "1"
image = { version = "0.24", default-features = false, features = ["png"] }
reqwest = { version = "0.11", default-features = false, features = ["blocking", "rustls-tls"] }
serde = { version = "1", features = ["derive"] }
serde_json = { version = "1", features = ["preserve_order"] }
zip = { version = "0.6", default-features = false, features = ["deflate"] }
