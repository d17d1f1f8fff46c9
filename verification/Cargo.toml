[package]
name = "tileglobe"
version = "0.1.0"
edition = "2021"
publish = false

[dependencies]
md5 = "*"
uuid = "*"
smallvec = "*"
glam = "*"
ordered-float = "*"
serde = { version = "*", features = ["derive"] }
serde_json = "*"
