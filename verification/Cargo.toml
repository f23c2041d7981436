[package]
name = "jago"
version = "0.1.0"
edition = "2021"
publish = false

[dependencies]
url = "*"
git2 = { version = "*", default-features = false }
